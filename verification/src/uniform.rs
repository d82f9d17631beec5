//! Uniform Resources: splitting a message into numbered parts for animated QR codes and
//! joining scanned parts back into the message.

use vstd::prelude::*;
use crate::qr::{lemma_first_index, part_texts, ur_numbers, ur_prefix, ur_segment};
use crate::text::has_prefix;
use crate::number::{all_digits, is_digit};
use crate::qr_image::{law_decimal_reads_back, lemma_digits_of};
use ur::Decoder as UrDecoder;
use ur::Encoder as UrEncoder;

verus! {

#[verifier::external_type_specification]
#[verifier::external_body]
pub struct ExUrEncoder<'a>(UrEncoder<'a>);

#[verifier::external_type_specification]
#[verifier::external_body]
pub struct ExUrDecoder(UrDecoder);

/// Message that an encoder splits into parts.
pub uninterp spec fn encoder_message(e: UrEncoder) -> Seq<u8>;

/// Largest fragment length an encoder was made with.
pub uninterp spec fn encoder_fragment_limit(e: UrEncoder) -> nat;

/// Number of parts an encoder has emitted.
pub uninterp spec fn encoder_emitted(e: UrEncoder) -> nat;

/// What `ur::Encoder::fragment_count` gives for a message and fragment limit: the number
/// of fragments the message is split into.
pub uninterp spec fn ur_fragment_count(message: Seq<u8>, limit: nat) -> nat;

/// What `ur::Encoder::next_part` gives as part number `sequence` (counted from one) of
/// a message split with a fragment limit: the URI of the part, `None` when the part
/// cannot be serialized. The fountain coding of the part body is not restated.
pub uninterp spec fn ur_part(message: Seq<u8>, limit: nat, sequence: nat) -> Option<Seq<char>>;

/// Values passed to a decoder so far, in order.
pub uninterp spec fn decoder_received(d: UrDecoder) -> Seq<Seq<char>>;

/// What `ur::Decoder::receive` decides of a value after the values received before:
/// whether it is accepted.
pub uninterp spec fn ur_accepts(received: Seq<Seq<char>>, value: Seq<char>) -> bool;

/// What `ur::Decoder::complete` gives after the values received: whether the message is
/// complete.
pub uninterp spec fn ur_complete(received: Seq<Seq<char>>) -> bool;

/// What `ur::Decoder::message` gives after the values received: `None` for an error,
/// else the message when it is complete.
pub uninterp spec fn ur_message(received: Seq<Seq<char>>) -> Option<Option<Seq<u8>>>;

/// Decimal text of a number, most significant digit first.
pub open spec fn number_text(n: nat) -> Seq<char> {
    crate::qr_image::digits_of(n)
}

/// Start of the URI of a part: `ur:bytes/`, the part number, `-`, the number of
/// fragments and `/`.
pub open spec fn part_prefix(sequence: nat, count: nat) -> Seq<char> {
    "ur:bytes/"@ + number_text(sequence) + "-"@ + number_text(count) + "/"@
}

/// Encoder of a message into parts of `bytes` type with fragments of at most `limit`
/// bytes (`UrEncoder::bytes`): refused for an empty message or a zero limit.
#[verifier::external_body]
pub(crate) fn new_encoder(message: &[u8], limit: usize) -> (r: Option<UrEncoder>)
    ensures
        r is Some <==> (0 < message@.len() && 0 < limit),
        r matches Some(e) ==> encoder_message(e) == message@ && encoder_fragment_limit(e)
            == limit && encoder_emitted(e) == 0,
{
    UrEncoder::bytes(message, limit).ok()
}

/// Number of fragments of the message (`UrEncoder::fragment_count`).
#[verifier::external_body]
pub(crate) fn fragment_count(e: &UrEncoder) -> (r: usize)
    ensures
        r == ur_fragment_count(encoder_message(*e), encoder_fragment_limit(*e)),
{
    e.fragment_count()
}

/// URI of the next part (`ur::Encoder::next_part`): the part counter advances, and the
/// part carries its number and the fragment count in front of its body. `None` when the
/// part could not be serialized.
#[verifier::external_body]
pub(crate) fn next_part(e: &mut UrEncoder) -> (r: Option<String>)
    ensures
        encoder_message(*final(e)) == encoder_message(*old(e)),
        encoder_fragment_limit(*final(e)) == encoder_fragment_limit(*old(e)),
        encoder_emitted(*final(e)) == encoder_emitted(*old(e)) + 1,
        match r {
            Some(p) => ur_part(
                encoder_message(*old(e)),
                encoder_fragment_limit(*old(e)),
                encoder_emitted(*old(e)) + 1,
            ) == Some(p@) && has_prefix(
                p@,
                part_prefix(
                    encoder_emitted(*old(e)) + 1,
                    ur_fragment_count(encoder_message(*old(e)), encoder_fragment_limit(*old(e))),
                ),
            ),
            None => ur_part(
                encoder_message(*old(e)),
                encoder_fragment_limit(*old(e)),
                encoder_emitted(*old(e)) + 1,
            ) is None,
        },
{
    e.next_part().ok()
}

/// Decoder before any value is received (`UrDecoder::default`).
#[verifier::external_body]
fn new_decoder() -> (r: UrDecoder)
    ensures
        decoder_received(r) == Seq::<Seq<char>>::empty(),
{
    UrDecoder::default()
}

/// Receive a part URI (`ur::Decoder::receive`): whether it is accepted after the values
/// received before.
#[verifier::external_body]
fn receive(d: &mut UrDecoder, value: &str) -> (r: bool)
    ensures
        r == ur_accepts(decoder_received(*old(d)), value@),
        decoder_received(*final(d)) == decoder_received(*old(d)).push(value@),
{
    d.receive(value).is_ok()
}

/// Check if the message is complete (`ur::Decoder::complete`).
#[verifier::external_body]
fn is_complete(d: &UrDecoder) -> (r: bool)
    ensures
        r == ur_complete(decoder_received(*d)),
{
    d.complete()
}

/// Decoded message (`ur::Decoder::message`): `None` for an error.
#[verifier::external_body]
fn message(d: &UrDecoder) -> (r: Option<Option<Vec<u8>>>)
    ensures
        match r {
            None => ur_message(decoder_received(*d)) is None,
            Some(None) => ur_message(decoder_received(*d)) == Some(None::<Seq<u8>>),
            Some(Some(v)) => ur_message(decoder_received(*d)) == Some(Some(v@)),
        },
{
    d.message().ok()
}

/// URIs of the first `n` parts of a message split with a fragment limit, leaving out
/// the parts that cannot be serialized.
pub open spec fn emitted_parts(message: Seq<u8>, limit: nat, n: nat) -> Seq<Seq<char>>
    decreases n,
{
    if n == 0 {
        Seq::empty()
    } else {
        let before = emitted_parts(message, limit, (n - 1) as nat);
        match ur_part(message, limit, n) {
            Some(p) => before.push(p),
            None => before,
        }
    }
}

/// Split a message into the URIs of its parts, one for each fragment; `None` for an empty
/// message or a zero fragment limit.
pub fn ur_parts_of(message: &[u8], limit: usize) -> (r: Option<Vec<String>>)
    ensures
        r is Some <==> (0 < message@.len() && 0 < limit),
        r matches Some(parts) ==> part_texts(parts@) == emitted_parts(
            message@,
            limit as nat,
            ur_fragment_count(message@, limit as nat),
        ),
{
    let mut encoder = match new_encoder(message, limit) {
        Some(e) => e,
        None => {
            return None;
        },
    };
    let count = fragment_count(&encoder);
    let mut parts: Vec<String> = Vec::new();
    let mut i: usize = 0;
    while i < count
        invariant
            encoder_message(encoder) == message@,
            encoder_fragment_limit(encoder) == limit,
            encoder_emitted(encoder) == i,
            count == ur_fragment_count(message@, limit as nat),
            i <= count,
            part_texts(parts@) == emitted_parts(message@, limit as nat, i as nat),
        decreases count - i,
    {
        let ghost before = part_texts(parts@);
        match next_part(&mut encoder) {
            Some(p) => {
                let ghost text = p@;
                parts.push(p);
                assert(part_texts(parts@) =~= before.push(text));
            },
            None => {},
        }
        i = i + 1;
    }
    Some(parts)
}

/// Values a decoder receives from stored parts, the `i`-th on, after `received`: empty
/// parts are skipped, and the first refused value is the last one passed.
pub open spec fn fed_values(parts: Seq<Seq<char>>, i: nat, received: Seq<Seq<char>>) -> Seq<
    Seq<char>,
>
    decreases parts.len() - i,
{
    if i >= parts.len() {
        received
    } else if parts[i as int].len() == 0 {
        fed_values(parts, i + 1, received)
    } else if ur_accepts(received, parts[i as int]) {
        fed_values(parts, i + 1, received.push(parts[i as int]))
    } else {
        received.push(parts[i as int])
    }
}

/// Message joined from stored parts: present when the decoder is complete after the
/// values fed to it and gives a message without error (an empty one when it has none).
pub open spec fn joined_message(parts: Seq<Seq<char>>) -> Option<Seq<u8>> {
    let received = fed_values(parts, 0, Seq::empty());
    if ur_complete(received) {
        match ur_message(received) {
            Some(Some(m)) => Some(m),
            Some(None) => Some(Seq::empty()),
            None => None,
        }
    } else {
        None
    }
}

/// Join stored Uniform Resources parts into their message, `None` while it is not
/// complete.
pub fn decode_ur_parts(parts: &Vec<String>) -> (r: Option<Vec<u8>>)
    ensures
        match r {
            Some(v) => joined_message(part_texts(parts@)) == Some(v@),
            None => joined_message(part_texts(parts@)) is None,
        },
{
    let ghost texts = part_texts(parts@);
    let ghost total = fed_values(texts, 0, Seq::empty());
    let mut decoder = new_decoder();
    let mut i: usize = 0;
    let mut stop = false;
    while i < parts.len() && !stop
        invariant
            texts == part_texts(parts@),
            total == fed_values(texts, 0, Seq::empty()),
            i <= parts@.len(),
            !stop ==> total == fed_values(texts, i as nat, decoder_received(decoder)),
            stop ==> total == decoder_received(decoder),
        decreases parts@.len() - i, if stop {
            0int
        } else {
            1int
        },
    {
        assert(texts[i as int] == parts@[i as int]@);
        if parts[i].as_str().is_empty() {
            i = i + 1;
        } else {
            let accepted = receive(&mut decoder, parts[i].as_str());
            if accepted {
                i = i + 1;
            } else {
                stop = true;
            }
        }
    }
    if !is_complete(&decoder) {
        return None;
    }
    match message(&decoder) {
        Some(Some(m)) => Some(m),
        Some(None) => Some(Vec::new()),
        None => None,
    }
}

proof fn lemma_digits_shape(n: nat)
    ensures
        number_text(n).len() > 0,
        all_digits(number_text(n)),
{
    lemma_digits_of(n);
}

/// A part emitted for an animated QR code carries its number and the fragment count in a
/// form that scanning reads back: as Uniform Resources text with that part number and
/// total.
pub proof fn law_emitted_part_numbers(uri: Seq<char>, sequence: nat, count: nat)
    requires
        has_prefix(uri, part_prefix(sequence, count)),
        sequence <= usize::MAX,
        count <= usize::MAX,
    ensures
        has_prefix(uri, ur_prefix()),
        ur_numbers(uri) == Some((sequence, count)),
{
    reveal_strlit("ur:bytes/");
    reveal_strlit("-");
    reveal_strlit("/");
    let ds = number_text(sequence);
    let dc = number_text(count);
    lemma_digits_shape(sequence);
    lemma_digits_shape(count);
    law_decimal_reads_back(sequence, usize::MAX as nat);
    law_decimal_reads_back(count, usize::MAX as nat);
    let prefix = part_prefix(sequence, count);
    assert(prefix =~= ur_prefix() + ds + seq!['-'] + dc + seq!['/']);
    assert(uri.subrange(0, prefix.len() as int) == prefix);
    assert(uri.subrange(0, 9) =~= ur_prefix()) by {
        assert forall|j: int| 0 <= j < 9 implies uri[j] == ur_prefix()[j] by {
            assert(uri[j] == prefix[j]);
        }
    }
    let rest = uri.skip(9);
    let slash = ds.len() + 1 + dc.len();
    assert forall|j: int| 0 <= j <= slash implies rest[j] == (ds + seq!['-'] + dc + seq!['/'])[j] by {
        assert(rest[j] == uri[j + 9]);
        assert(uri[j + 9] == prefix[j + 9]);
    }
    assert forall|j: int| 0 <= j < slash implies rest[j] != '/' by {
        if j < ds.len() {
            assert(is_digit(ds[j]));
        } else if j > ds.len() {
            assert(is_digit(dc[j - ds.len() - 1]));
        }
    }
    lemma_first_index(rest, '/', slash as int);
    let seg = ur_segment(uri);
    assert(seg =~= ds + seq!['-'] + dc);
    assert forall|j: int| 0 <= j < ds.len() implies seg[j] != '-' by {
        assert(is_digit(ds[j]));
    }
    lemma_first_index(seg, '-', ds.len() as int);
    assert(seg.take(ds.len() as int) =~= ds);
    assert(seg.skip(ds.len() as int + 1) =~= dc);
}

/// Stored parts that hold a text: the empty places left for parts not yet scanned are
/// dropped, the order of the others is kept.
pub open spec fn stored_texts(parts: Seq<Seq<char>>) -> Seq<Seq<char>> {
    parts.filter(|t: Seq<char>| t.len() > 0)
}

proof fn lemma_fed_shift(a: Seq<Seq<char>>, b: Seq<Seq<char>>, j: nat, r: Seq<Seq<char>>)
    ensures
        fed_values(a + b, a.len() + j, r) == fed_values(b, j, r),
    decreases b.len() - j,
{
    if j < b.len() {
        assert((a + b)[(a.len() + j) as int] == b[j as int]);
        lemma_fed_shift(a, b, j + 1, r);
        lemma_fed_shift(a, b, j + 1, r.push(b[j as int]));
    }
}

proof fn lemma_fed_stored(parts: Seq<Seq<char>>, i: nat, r: Seq<Seq<char>>)
    requires
        i <= parts.len(),
    ensures
        fed_values(parts, i, r) == fed_values(stored_texts(parts.skip(i as int)), 0, r),
    decreases parts.len() - i,
{
    let s = parts.skip(i as int);
    if i == parts.len() {
        assert(s =~= Seq::<Seq<char>>::empty());
        reveal(Seq::filter);
        assert(stored_texts(s) =~= Seq::<Seq<char>>::empty());
    } else {
        let x = parts[i as int];
        let rest = parts.skip((i + 1) as int);
        assert(s =~= seq![x] + rest);
        Seq::filter_distributes_over_add(seq![x], rest, |t: Seq<char>| t.len() > 0);
        let g = stored_texts(rest);
        reveal_with_fuel(Seq::filter, 2);
        assert(seq![x].drop_last() =~= Seq::<Seq<char>>::empty());
        lemma_fed_stored(parts, i + 1, r);
        if x.len() == 0 {
            assert(seq![x].filter(|t: Seq<char>| t.len() > 0) =~= Seq::<Seq<char>>::empty());
            assert(stored_texts(s) =~= g);
        } else {
            assert(seq![x].filter(|t: Seq<char>| t.len() > 0) =~= seq![x]);
            assert(stored_texts(s) =~= seq![x] + g);
            let xs = seq![x] + g;
            assert(xs[0] == x);
            lemma_fed_stored(parts, i + 1, r.push(x));
            lemma_fed_shift(seq![x], g, 0, r.push(x));
        }
    }
}

/// The empty places among stored parts change nothing: the parts join to the message
/// they would join to without them, so parts scanned in any order, with places left for
/// those still missing, join as soon as they are complete.
pub proof fn law_empty_parts_skipped(parts: Seq<Seq<char>>)
    ensures
        joined_message(parts) == joined_message(stored_texts(parts)),
{
    lemma_fed_stored(parts, 0, Seq::empty());
    assert(parts.skip(0) =~= parts);
    lemma_fed_stored(stored_texts(parts), 0, Seq::empty());
    assert(stored_texts(parts).skip(0) =~= stored_texts(parts));
}

} // verus!
