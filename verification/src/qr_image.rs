//! QR code images: vector (SVG) and raster pictures of the modules of a QR code, and
//! the frame shown by an animated QR code.

use vstd::prelude::*;
use vstd::arithmetic::div_mod::lemma_fundamental_div_mod_converse;
use qrcodegen::{QrCode, QrCodeEcc};
use vstd::utf8::encode_utf8;
use crate::number::{all_digits, digits_value, is_digit, parse_unsigned};
use crate::text::{lemma_encoded_len_at_least, push_text};
use crate::uniform::{
    encoder_emitted, encoder_fragment_limit, encoder_message, fragment_count, new_encoder,
    next_part, ur_fragment_count, ur_part,
};

verus! {

#[verifier::external_type_specification]
#[verifier::external_body]
pub struct ExQrCode(QrCode);

/// Modules of a QR code row by row: `true` for a dark module.
pub uninterp spec fn qr_modules(code: QrCode) -> Seq<bool>;

/// Width and height of a QR code, in modules.
pub uninterp spec fn qr_size(code: QrCode) -> int;

/// What `QrCode::encode_text` gives for a text at the low error correction level: the
/// size and the modules of the code, `None` when the text does not fit. The encoding
/// rules are not restated: the result depends on the text alone.
pub uninterp spec fn text_qr_code(text: Seq<char>) -> Option<(int, Seq<bool>)>;

/// QR code of a text at the low error correction level (`QrCode::encode_text`): a square
/// of 21 to 177 modules a side. Its documentation guarantees success for texts of at
/// most 738 characters.
#[verifier::external_body]
pub(crate) fn encode_text(text: &str) -> (r: Option<QrCode>)
    ensures
        match r {
            Some(c) => text_qr_code(text@) == Some((qr_size(c), qr_modules(c))) && 21 <= qr_size(c)
                <= 177,
            None => text_qr_code(text@) is None,
        },
        text@.len() <= 738 ==> r is Some,
{
    QrCode::encode_text(text, QrCodeEcc::Low).ok()
}

/// Width and height of a QR code (`QrCode::size`): between 21 and 177 modules, with one
/// module value for each place of the square.
#[verifier::external_body]
fn code_size(code: &QrCode) -> (r: i32)
    ensures
        r == qr_size(*code),
        21 <= r <= 177,
        qr_modules(*code).len() == r * r,
{
    code.size()
}

/// Module at column `x` and row `y` (`QrCode::get_module`): dark inside the square when
/// the module is dark, light outside of it.
#[verifier::external_body]
fn module_at(code: &QrCode, x: i32, y: i32) -> (r: bool)
    ensures
        r == (0 <= x < qr_size(*code) && 0 <= y < qr_size(*code) && qr_modules(*code)[y
            * qr_size(*code) + x]),
{
    code.get_module(x, y)
}

/// Character of a decimal digit.
pub open spec fn digit_char(d: nat) -> char {
    if d == 0 {
        '0'
    } else if d == 1 {
        '1'
    } else if d == 2 {
        '2'
    } else if d == 3 {
        '3'
    } else if d == 4 {
        '4'
    } else if d == 5 {
        '5'
    } else if d == 6 {
        '6'
    } else if d == 7 {
        '7'
    } else if d == 8 {
        '8'
    } else {
        '9'
    }
}

/// Decimal digits of a number, most significant first.
pub open spec fn digits_of(n: nat) -> Seq<char>
    decreases n,
{
    if n < 10 {
        seq![digit_char(n)]
    } else {
        digits_of(n / 10).push(digit_char(n % 10))
    }
}

/// Decimal text of an integer, with `-` in front of a negative one.
pub open spec fn decimal(n: int) -> Seq<char> {
    if n < 0 {
        seq!['-'] + digits_of((-n) as nat)
    } else {
        digits_of(n as nat)
    }
}

proof fn lemma_digit_char(d: nat)
    requires
        d < 10,
    ensures
        is_digit(digit_char(d)),
        crate::number::digit_value(digit_char(d)) == d,
{
    if d == 0 {
        assert(digit_char(d) == '0');
    } else if d == 1 {
        assert(digit_char(d) == '1');
    } else if d == 2 {
        assert(digit_char(d) == '2');
    } else if d == 3 {
        assert(digit_char(d) == '3');
    } else if d == 4 {
        assert(digit_char(d) == '4');
    } else if d == 5 {
        assert(digit_char(d) == '5');
    } else if d == 6 {
        assert(digit_char(d) == '6');
    } else if d == 7 {
        assert(digit_char(d) == '7');
    } else if d == 8 {
        assert(digit_char(d) == '8');
    } else {
        assert(digit_char(d) == '9');
    }
}

pub(crate) proof fn lemma_digits_of(n: nat)
    ensures
        digits_of(n).len() > 0,
        all_digits(digits_of(n)),
        digits_value(digits_of(n)) == n,
    decreases n,
{
    let d = digits_of(n);
    lemma_digit_char(n % 10);
    if n < 10 {
        assert(d.drop_last() =~= Seq::<char>::empty());
        assert(digits_value(d.drop_last()) == 0);
        assert(n % 10 == n);
    } else {
        lemma_digits_of(n / 10);
        assert(d.drop_last() =~= digits_of(n / 10));
        assert(n == (n / 10) * 10 + n % 10);
        assert forall|i: int| 0 <= i < d.len() implies is_digit(#[trigger] d[i]) by {
            if i < d.len() - 1 {
                assert(d[i] == digits_of(n / 10)[i]);
            }
        }
    }
}

/// The decimal text of a number reads back as that number wherever it is in range.
pub proof fn law_decimal_reads_back(n: nat, max: nat)
    requires
        n <= max,
    ensures
        parse_unsigned(digits_of(n), max) == Some(n),
        n <= i64::MAX ==> parse_unsigned(decimal(n as int), max) == Some(n),
{
    lemma_digits_of(n);
}

fn digit(d: u64) -> (c: char)
    requires
        d < 10,
    ensures
        c == digit_char(d as nat),
{
    match d {
        0 => '0',
        1 => '1',
        2 => '2',
        3 => '3',
        4 => '4',
        5 => '5',
        6 => '6',
        7 => '7',
        8 => '8',
        _ => '9',
    }
}

/// Append the decimal digits of a number.
pub fn push_digits(out: &mut String, n: u64)
    ensures
        final(out)@ == old(out)@ + digits_of(n as nat),
    decreases n,
{
    if n < 10 {
        crate::text::push_char(out, digit(n));
        assert(digits_of(n as nat) =~= seq![digit_char(n as nat)]);
    } else {
        push_digits(out, n / 10);
        crate::text::push_char(out, digit(n % 10));
        assert(old(out)@ + digits_of(n as nat) =~= old(out)@ + digits_of((n / 10) as nat) + seq![
            digit_char((n % 10) as nat),
        ]);
    }
}

/// Append the decimal text of an integer.
pub fn push_decimal(out: &mut String, n: i64)
    ensures
        final(out)@ == old(out)@ + decimal(n as int),
{
    if n < 0 {
        crate::text::push_char(out, '-');
        let m: u64 = if n == i64::MIN {
            9223372036854775808u64
        } else {
            (-n) as u64
        };
        push_digits(out, m);
        assert(old(out)@ + decimal(n as int) =~= old(out)@.push('-') + digits_of(m as nat));
    } else {
        push_digits(out, n as u64);
    }
}

/// Beginning of the vector image of a QR code square of `dimension` modules.
pub open spec fn svg_head(dimension: int) -> Seq<char> {
    "<?xml version=\"1.0\" encoding=\"UTF-8\"?>\n"@
        + "<!DOCTYPE svg PUBLIC \"-//W3C//DTD SVG 1.1//EN\" \"http://www.w3.org/Graphics/SVG/1.1/DTD/svg11.dtd\">\n"@
        + "<svg xmlns=\"http://www.w3.org/2000/svg\" version=\"1.1\" viewBox=\"0 0 "@ + decimal(
        dimension,
    ) + " "@ + decimal(dimension) + "\" stroke=\"none\">\n"@
        + "\t<rect width=\"100%\" height=\"100%\" fill=\"#FFFFFF\"/>\n"@ + "\t<path d=\""@
}

/// End of the vector image of a QR code.
pub open spec fn svg_tail() -> Seq<char> {
    "\" fill=\"#000000\"/>\n"@ + "</svg>\n"@
}

/// Path command that draws the dark module at column `x` and row `y`, moved by
/// `border`: separated by a space from the commands before it, except at the first place.
pub open spec fn module_command(border: int, x: int, y: int) -> Seq<char> {
    (if x != 0 || y != 0 {
        " "@
    } else {
        Seq::<char>::empty()
    }) + "M"@ + decimal(x + border) + ","@ + decimal(y + border) + "h1v1h-1z"@
}

/// Path commands of the first `k` modules, taken row by row.
pub open spec fn modules_path(size: int, modules: Seq<bool>, border: int, k: nat) -> Seq<char>
    decreases k,
{
    if k == 0 {
        Seq::empty()
    } else {
        let i = k - 1;
        modules_path(size, modules, border, (k - 1) as nat) + if modules[i] {
            module_command(border, i % size, i / size)
        } else {
            Seq::<char>::empty()
        }
    }
}

/// Vector image of a QR code with `size` modules a side and a border of `border` modules.
pub open spec fn svg_image(size: int, modules: Seq<bool>, border: int) -> Seq<char> {
    svg_head(size + 2 * border) + modules_path(size, modules, border, (size * size) as nat)
        + svg_tail()
}

/// Convert QR code to SVG text with a border of `border` modules.
pub fn qr_to_svg(code: &QrCode, border: i32) -> (r: String)
    requires
        i32::MIN <= 2 * border,
        qr_size(*code) + 2 * border <= i32::MAX,
        i32::MIN <= qr_size(*code) + 2 * border,
    ensures
        r@ == svg_image(qr_size(*code), qr_modules(*code), border as int),
{
    let size = code_size(code);
    let ghost modules = qr_modules(*code);
    let dimension = size + border * 2;
    let mut out = String::new();
    push_text(&mut out, "<?xml version=\"1.0\" encoding=\"UTF-8\"?>\n");
    push_text(
        &mut out,
        "<!DOCTYPE svg PUBLIC \"-//W3C//DTD SVG 1.1//EN\" \"http://www.w3.org/Graphics/SVG/1.1/DTD/svg11.dtd\">\n",
    );
    push_text(
        &mut out,
        "<svg xmlns=\"http://www.w3.org/2000/svg\" version=\"1.1\" viewBox=\"0 0 ",
    );
    push_decimal(&mut out, dimension as i64);
    push_text(&mut out, " ");
    push_decimal(&mut out, dimension as i64);
    push_text(&mut out, "\" stroke=\"none\">\n");
    push_text(&mut out, "\t<rect width=\"100%\" height=\"100%\" fill=\"#FFFFFF\"/>\n");
    push_text(&mut out, "\t<path d=\"");
    let ghost head = out@;
    assert(head =~= svg_head(dimension as int));
    let mut y: i32 = 0;
    while y < size
        invariant
            size == qr_size(*code),
            21 <= size <= 177,
            modules == qr_modules(*code),
            modules.len() == size * size,
            0 <= y <= size,
            i32::MIN <= 2 * border,
            size + 2 * border <= i32::MAX,
            out@ == head + modules_path(size as int, modules, border as int, (y * size) as nat),
        decreases size - y,
    {
        let mut x: i32 = 0;
        while x < size
            invariant
                size == qr_size(*code),
                21 <= size <= 177,
                modules == qr_modules(*code),
                modules.len() == size * size,
                0 <= y < size,
                0 <= x <= size,
                i32::MIN <= 2 * border,
                size + 2 * border <= i32::MAX,
                out@ == head + modules_path(
                    size as int,
                    modules,
                    border as int,
                    (y * size + x) as nat,
                ),
            decreases size - x,
        {
            let ghost k = y * size + x;
            proof {
                lemma_fundamental_div_mod_converse(k, size as int, y as int, x as int);
                assert(0 <= k < size * size) by (nonlinear_arith)
                    requires
                        0 <= y < size,
                        0 <= x < size,
                        k == y * size + x,
                ;
            }
            let ghost before = out@;
            if module_at(code, x, y) {
                if x != 0 || y != 0 {
                    push_text(&mut out, " ");
                }
                push_text(&mut out, "M");
                push_decimal(&mut out, x as i64 + border as i64);
                push_text(&mut out, ",");
                push_decimal(&mut out, y as i64 + border as i64);
                push_text(&mut out, "h1v1h-1z");
                assert(out@ =~= before + module_command(border as int, x as int, y as int));
            } else {
                assert(out@ =~= before + Seq::<char>::empty());
            }
            x = x + 1;
            assert((k + 1) as nat == (y * size + x) as nat);
        }
        assert(y * size + size == (y + 1) * size) by (nonlinear_arith);
        y = y + 1;
    }
    push_text(&mut out, "\" fill=\"#000000\"/>\n");
    push_text(&mut out, "</svg>\n");
    out
}

/// Pixel of the raster picture at column `col` and row `row`: black (0) inside the square
/// drawn for a dark module, `point` pixels wide and placed after a margin of `margin`
/// pixels, white (255) elsewhere.
pub open spec fn raster_pixel(
    s: int,
    modules: Seq<bool>,
    point: int,
    margin: int,
    col: int,
    row: int,
) -> u8 {
    if margin <= col < margin + point * s && margin <= row < margin + point * s && modules[((
    row - margin) / point) * s + (col - margin) / point] {
        0
    } else {
        255
    }
}

/// Pixel number `p` of a picture `size` pixels a side, counted row by row.
pub open spec fn pixel_of(size: nat, s: int, modules: Seq<bool>, point: int, margin: int, p: int) -> u8 {
    raster_pixel(s, modules, point, margin, p % (size as int), p / (size as int))
}

/// Raster picture, `size` pixels a side and row by row, of a QR code with `s` modules a
/// side: each module is drawn as a square of `size / (s + 2)` pixels, the code centered.
/// `None` when the picture has more pixels than an address can count (its side is at
/// least two to the power of half the address width) or when a module would be narrower
/// than a pixel.
pub open spec fn raster_image(size: nat, s: int, modules: Seq<bool>) -> Option<Seq<u8>> {
    if size * size > usize::MAX {
        None
    } else {
        let point: int = size as int / (s + 2);
        if point == 0 {
            None
        } else {
            let margin: int = (size - point * s) / 2;
            Some(
                Seq::new(
                    size * size,
                    |p: int| pixel_of(size, s, modules, point, margin, p),
                ),
            )
        }
    }
}

proof fn lemma_block_index(a: int, point: int, s: int)
    requires
        0 <= a < point * s,
        point > 0,
        s > 0,
    ensures
        0 <= a / point < s,
{
    assert(0 <= a / point < s) by (nonlinear_arith)
        requires
            0 <= a < point * s,
            point > 0,
            s > 0,
    ;
}

/// Convert QR code to raster image data: `size` pixels a side, one byte per pixel.
pub fn qr_to_image_data(code: &QrCode, size: usize) -> (r: Option<Vec<u8>>)
    ensures
        match r {
            Some(v) => raster_image(size as nat, qr_size(*code), qr_modules(*code)) == Some(v@),
            None => raster_image(size as nat, qr_size(*code), qr_modules(*code)) is None,
        },
{
    let s32 = code_size(code);
    let s = s32 as usize;
    let ghost modules = qr_modules(*code);
    if size.checked_mul(size).is_none() {
        return None;
    }
    let point = size / (s + 2);
    if point == 0 {
        return None;
    }
    proof {
        assert(point * s <= point * (s + 2)) by (nonlinear_arith)
            requires
                point > 0,
                s > 0,
        ;
        assert(point * (s + 2) <= size) by (nonlinear_arith)
            requires
                point == size as int / (s as int + 2),
                s > 0,
        ;
    }
    let margin = (size - point * s) / 2;
    let end = margin + point * s;
    let mut img: Vec<u8> = Vec::new();
    let mut row: usize = 0;
    while row < size
        invariant
            s == qr_size(*code),
            21 <= s <= 177,
            modules == qr_modules(*code),
            point > 0,
            end == margin + point * s,
            end <= size,
            size * size <= usize::MAX,
            0 <= row <= size,
            img@.len() == row * size,
            forall|p: int| 0 <= p < img@.len() ==> #[trigger] img@[p] == pixel_of(size as nat, s as int, modules, point as int, margin as int, p),
        decreases size - row,
    {
        let mut col: usize = 0;
        while col < size
            invariant
                s == qr_size(*code),
                21 <= s <= 177,
                modules == qr_modules(*code),
                point > 0,
                end == margin + point * s,
                end <= size,
                size * size <= usize::MAX,
                0 <= row < size,
                0 <= col <= size,
                img@.len() == row * size + col,
                forall|p: int| 0 <= p < img@.len() ==> #[trigger] img@[p] == pixel_of(size as nat, s as int, modules, point as int, margin as int, p),
            decreases size - col,
        {
            let ghost k = row * size + col;
            proof {
                lemma_fundamental_div_mod_converse(k, size as int, row as int, col as int);
            }
            let inside = margin <= col && col < end && margin <= row && row < end;
            let black = if inside {
                let i = (col - margin) / point;
                let j = (row - margin) / point;
                proof {
                    lemma_block_index((col - margin) as int, point as int, s as int);
                    lemma_block_index((row - margin) as int, point as int, s as int);
                }
                module_at(code, i as i32, j as i32)
            } else {
                false
            };
            img.push(if black {
                0u8
            } else {
                255u8
            });
            assert(img@[k] == pixel_of(size as nat, s as int, modules, point as int, margin as int, k));
            col = col + 1;
        }
        assert(row * size + size == (row + 1) * size) by (nonlinear_arith);
        row = row + 1;
    }
    assert(img@ =~= Seq::new(
        (size * size) as nat,
        |p: int| pixel_of(size as nat, s as int, modules, point as int, margin as int, p),
    ));
    Some(img)
}

/// Vector image bytes of the QR code of a text, without border; `None` when the text
/// does not fit in a QR code.
pub open spec fn text_svg_bytes(text: Seq<char>) -> Option<Seq<u8>> {
    match text_qr_code(text) {
        Some((size, modules)) => Some(encode_utf8(svg_image(size, modules, 0))),
        None => None,
    }
}

/// Create vector image bytes of the QR code of a text.
pub fn text_svg(text: &str) -> (r: Option<Vec<u8>>)
    ensures
        match r {
            Some(v) => text_svg_bytes(text@) == Some(v@),
            None => text_svg_bytes(text@) is None,
        },
{
    match encode_text(text) {
        Some(qr) => {
            let svg = qr_to_svg(&qr, 0);
            Some(vstd::slice::slice_to_vec(svg.as_str().as_bytes()))
        },
        None => None,
    }
}

/// Largest fragment length of the parts of an animated QR code.
pub const UR_FRAGMENT_LIMIT: usize = 100;

/// Frames of an animated QR code for the first `n` parts of a message: the vector images
/// of the parts that could be serialized and fit in a QR code, in order.
pub open spec fn animated_frames(message: Seq<u8>, n: nat) -> Seq<Seq<u8>>
    decreases n,
{
    if n == 0 {
        Seq::empty()
    } else {
        let before = animated_frames(message, (n - 1) as nat);
        match ur_part(message, UR_FRAGMENT_LIMIT as nat, n) {
            Some(part) => match text_svg_bytes(part) {
                Some(f) => before.push(f),
                None => before,
            },
            None => before,
        }
    }
}

/// Create the frames of an animated QR code of a text: one vector image for each
/// Uniform Resources part of its bytes; `None` when there is none.
pub fn animated_svg_list(text: &str) -> (r: Option<Vec<Vec<u8>>>)
    requires
        0 < text@.len(),
    ensures
        ({
            let message = encode_utf8(text@);
            let frames = animated_frames(
                message,
                ur_fragment_count(message, UR_FRAGMENT_LIMIT as nat),
            );
            match r {
                Some(list) => frames.len() > 0 && list@.map_values(|f: Vec<u8>| f@) == frames,
                None => frames.len() == 0,
            }
        }),
{
    let bytes = text.as_bytes();
    proof {
        lemma_encoded_len_at_least(text@);
    }
    let ghost message = encode_utf8(text@);
    let mut encoder = match new_encoder(bytes, UR_FRAGMENT_LIMIT) {
        Some(e) => e,
        None => {
            return None;
        },
    };
    let count = fragment_count(&encoder);
    let mut data: Vec<Vec<u8>> = Vec::new();
    let mut i: usize = 0;
    while i < count
        invariant
            encoder_message(encoder) == message,
            encoder_fragment_limit(encoder) == UR_FRAGMENT_LIMIT,
            encoder_emitted(encoder) == i,
            count == ur_fragment_count(message, UR_FRAGMENT_LIMIT as nat),
            i <= count,
            data@.map_values(|f: Vec<u8>| f@) == animated_frames(message, i as nat),
        decreases count - i,
    {
        let ghost before = data@.map_values(|f: Vec<u8>| f@);
        match next_part(&mut encoder) {
            Some(part) => match text_svg(part.as_str()) {
                Some(svg) => {
                    let ghost frame = svg@;
                    data.push(svg);
                    assert(data@.map_values(|f: Vec<u8>| f@) =~= before.push(frame));
                },
                None => {},
            },
            None => {},
        }
        i = i + 1;
    }
    if data.len() == 0 {
        None
    } else {
        Some(data)
    }
}

/// QR code content of a text: a static code, or an animated code of Uniform Resources
/// parts whose frames change over time.
pub struct QrCodeContent {
    /// Text to create QR code.
    pub text: String,
    /// Flag to draw animated QR with Uniform Resources.
    pub animated: bool,
    /// Index of current image at animation.
    pub animated_index: Option<usize>,
    /// Time of last image draw, in milliseconds.
    pub animation_time: Option<i64>,
}

/// Minimal time a frame of an animated code stays shown, in milliseconds.
pub const FRAME_TIME: i64 = 100;

impl QrCodeContent {
    /// Content for a text, before any frame was shown.
    pub fn new(text: String, animated: bool) -> (r: Self)
        ensures
            r.text == text,
            r.animated == animated,
            r.animated_index is None,
            r.animation_time is None,
    {
        QrCodeContent { text, animated, animated_index: None, animation_time: None }
    }

    /// Select the frame of an animated code to show at time `now`: the first call only
    /// notes the time; once more than [`FRAME_TIME`] passed since the last change, the next
    /// frame is taken, the first one after the last, and the time is noted.
    pub fn frame_index(&mut self, now: i64, frames: usize) -> (r: usize)
        requires
            frames > 0,
            old(self).animated_index matches Some(i) ==> i < frames,
            old(self).animation_time matches Some(t) ==> i64::MIN <= now - t <= i64::MAX,
        ensures
            ({
                let last = match old(self).animation_time {
                    Some(t) => t,
                    None => now,
                };
                if now - last > FRAME_TIME {
                    let next: int = match old(self).animated_index {
                        Some(i) => i + 1,
                        None => 0,
                    };
                    &&& final(self).animation_time == Some(now)
                    &&& r == (if next == frames {
                        0
                    } else {
                        next
                    })
                    &&& final(self).animated_index == Some(r)
                } else {
                    &&& final(self).animation_time == Some(last)
                    &&& final(self).animated_index == old(self).animated_index
                    &&& r == match old(self).animated_index {
                        Some(i) => i,
                        None => 0,
                    }
                }
            }),
            r < frames,
            final(self).text == old(self).text,
            final(self).animated == old(self).animated,
    {
        let last = match self.animation_time {
            Some(t) => t,
            None => now,
        };
        self.animation_time = Some(last);
        if now - last > FRAME_TIME {
            let next = match self.animated_index {
                Some(i) => i + 1,
                None => 0,
            };
            let index = if next == frames {
                0
            } else {
                next
            };
            self.animated_index = Some(index);
            self.animation_time = Some(now);
        }
        match self.animated_index {
            Some(i) => i,
            None => 0,
        }
    }
}

} // verus!
