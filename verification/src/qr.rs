//! QR code scan results: classification of scanned data as a Slatepack message or
//! address, a part of Uniform Resources data, a SeedQR recovery phrase or plain text.

use vstd::prelude::*;
use vstd::utf8::{decode_utf8, encode_utf8, valid_utf8};
use crate::number::{parse_unsigned, parse_usize_chars};
use crate::text::{chars_of, same_text, string_from_chars, trim, trim_chars, has_prefix, has_suffix, starts_with, ends_with};

verus! {

/// Text of scanned data: the data read as UTF-8, empty when it is not UTF-8.
pub open spec fn decoded_text(data: Seq<u8>) -> Seq<char> {
    if valid_utf8(data) {
        decode_utf8(data)
    } else {
        Seq::empty()
    }
}

/// Read bytes as UTF-8 text (`String::from_utf8`): `None` when they are not UTF-8.
#[verifier::external_body]
fn string_from_utf8(data: &[u8]) -> (r: Option<String>)
    ensures
        r is Some <==> valid_utf8(data@),
        r matches Some(s) ==> s@ == decode_utf8(data@),
{
    String::from_utf8(data.to_vec()).ok()
}

/// Scanned data as text, empty when the data is not UTF-8.
pub fn decode_text(data: &[u8]) -> (r: String)
    ensures
        r@ == decoded_text(data@),
{
    match string_from_utf8(data) {
        Some(s) => s,
        None => String::new(),
    }
}

/// Position of the first `c` in `s`.
pub open spec fn first_index_of(s: Seq<char>, c: char) -> Option<int>
    decreases s.len(),
{
    if s.len() == 0 {
        None
    } else if s[0] == c {
        Some(0)
    } else {
        match first_index_of(s.drop_first(), c) {
            Some(i) => Some(i + 1),
            None => None,
        }
    }
}

pub(crate) proof fn lemma_first_index(s: Seq<char>, c: char, i: int)
    requires
        0 <= i < s.len(),
        s[i] == c,
        forall|j: int| 0 <= j < i ==> s[j] != c,
    ensures
        first_index_of(s, c) == Some(i),
    decreases i,
{
    if i > 0 {
        lemma_first_index(s.drop_first(), c, i - 1);
    }
}

proof fn lemma_no_index(s: Seq<char>, c: char)
    requires
        forall|j: int| 0 <= j < s.len() ==> s[j] != c,
    ensures
        first_index_of(s, c) is None,
    decreases s.len(),
{
    if s.len() > 0 {
        lemma_no_index(s.drop_first(), c);
    }
}

proof fn lemma_first_index_found(s: Seq<char>, c: char)
    ensures
        first_index_of(s, c) matches Some(i) ==> 0 <= i < s.len() && s[i] == c && forall|j: int|
            0 <= j < i ==> s[j] != c,
    decreases s.len(),
{
    if s.len() > 0 && s[0] != c {
        let t = s.drop_first();
        lemma_first_index_found(t, c);
        if let Some(i) = first_index_of(t, c) {
            assert forall|j: int| 0 <= j < i + 1 implies s[j] != c by {
                if j > 0 {
                    assert(s[j] == t[j - 1]);
                }
            }
        }
    }
}

/// Find the position of the first `c` in `cs`.
pub fn index_of(cs: &[char], c: char) -> (r: Option<usize>)
    ensures
        match r {
            Some(i) => first_index_of(cs@, c) == Some(i as int) && i < cs@.len(),
            None => first_index_of(cs@, c) is None,
        },
{
    let mut i: usize = 0;
    while i < cs.len()
        invariant
            i <= cs@.len(),
            forall|j: int| 0 <= j < i ==> cs@[j] != c,
        decreases cs@.len() - i,
    {
        if cs[i] == c {
            proof {
                lemma_first_index(cs@, c, i as int);
                lemma_first_index_found(cs@, c);
            }
            return Some(i);
        }
        i = i + 1;
    }
    proof {
        lemma_no_index(cs@, c);
    }
    None
}

/// Prefix of Uniform Resources data with bytes content.
pub open spec fn ur_prefix() -> Seq<char> {
    seq!['u', 'r', ':', 'b', 'y', 't', 'e', 's', '/']
}

/// The path segment after `ur:bytes/`, up to the next `/`.
pub open spec fn ur_segment(text: Seq<char>) -> Seq<char> {
    let rest = text.skip(9);
    match first_index_of(rest, '/') {
        Some(k) => rest.take(k),
        None => rest,
    }
}

/// Part number and total parts count written as `index-total` in the path segment of
/// Uniform Resources text.
pub open spec fn ur_numbers(text: Seq<char>) -> Option<(nat, nat)> {
    let seg = ur_segment(text);
    match first_index_of(seg, '-') {
        Some(p) => match (
            parse_unsigned(seg.take(p), usize::MAX as nat),
            parse_unsigned(seg.skip(p + 1), usize::MAX as nat),
        ) {
            (Some(i), Some(t)) => Some((i, t)),
            _ => None,
        },
        None => None,
    }
}

fn ur_prefix_chars() -> (r: Vec<char>)
    ensures
        r@ == ur_prefix(),
{
    let r = vec!['u', 'r', ':', 'b', 'y', 't', 'e', 's', '/'];
    assert(r@ =~= ur_prefix());
    r
}

/// Read part number and parts count of Uniform Resources text that starts with `ur:bytes/`.
pub fn parse_ur_numbers(text: &[char]) -> (r: Option<(usize, usize)>)
    requires
        text@.len() >= 9,
    ensures
        match r {
            Some((i, t)) => ur_numbers(text@) == Some((i as nat, t as nat)),
            None => ur_numbers(text@) is None,
        },
{
    let mut rest: Vec<char> = Vec::new();
    let mut k: usize = 9;
    while k < text.len()
        invariant
            9 <= k <= text@.len(),
            rest@ == text@.subrange(9, k as int),
        decreases text@.len() - k,
    {
        rest.push(text[k]);
        k = k + 1;
        assert(rest@ =~= text@.subrange(9, k as int));
    }
    assert(rest@ =~= text@.skip(9));
    let seg: Vec<char> = match index_of(rest.as_slice(), '/') {
        Some(s) => {
            let mut v: Vec<char> = Vec::new();
            let mut j: usize = 0;
            while j < s
                invariant
                    s <= rest@.len(),
                    j <= s,
                    v@ == rest@.take(j as int),
                decreases s - j,
            {
                v.push(rest[j]);
                j = j + 1;
                assert(v@ =~= rest@.take(j as int));
            }
            v
        },
        None => rest,
    };
    assert(seg@ == ur_segment(text@));
    match index_of(seg.as_slice(), '-') {
        Some(p) => {
            let mut left: Vec<char> = Vec::new();
            let mut right: Vec<char> = Vec::new();
            let mut j: usize = 0;
            while j < seg.len()
                invariant
                    p < seg@.len(),
                    j <= seg@.len(),
                    left@ == seg@.take(if j < p {
                        j as int
                    } else {
                        p as int
                    }),
                    right@ == (if j <= p + 1 {
                        Seq::<char>::empty()
                    } else {
                        seg@.subrange(p + 1, j as int)
                    }),
                decreases seg@.len() - j,
            {
                if j < p {
                    left.push(seg[j]);
                } else if j > p {
                    right.push(seg[j]);
                }
                j = j + 1;
                assert(left@ =~= seg@.take(if j < p {
                    j as int
                } else {
                    p as int
                }));
                assert(right@ =~= (if j <= p + 1 {
                    Seq::<char>::empty()
                } else {
                    seg@.subrange(p + 1, j as int)
                }));
            }
            assert(right@ =~= seg@.skip(p + 1));
            let index = parse_usize_chars(left.as_slice());
            let total = parse_usize_chars(right.as_slice());
            match (index, total) {
                (Some(i), Some(t)) => Some((i, t)),
                _ => None,
            }
        },
        None => None,
    }
}


/// Bit `k` of a byte sequence, the most significant bit of each byte first.
pub open spec fn bit_set(bytes: Seq<u8>, k: int) -> bool {
    bytes[k / 8] & (1u8 << ((7 - k % 8) as u8)) != 0
}

/// Number written by `count` bits of `bytes` from bit `start` on, most significant first.
pub open spec fn bits_value(bytes: Seq<u8>, start: int, count: nat) -> nat
    decreases count,
{
    if count == 0 {
        0
    } else {
        2 * bits_value(bytes, start, (count - 1) as nat) + if bit_set(
            bytes,
            start + count - 1,
        ) {
            1nat
        } else {
            0nat
        }
    }
}

pub open spec fn two_pow(n: nat) -> nat
    decreases n,
{
    if n == 0 {
        1
    } else {
        2 * two_pow((n - 1) as nat)
    }
}

proof fn lemma_bits_value_bound(bytes: Seq<u8>, start: int, count: nat)
    ensures
        bits_value(bytes, start, count) < two_pow(count),
    decreases count,
{
    if count > 0 {
        lemma_bits_value_bound(bytes, start, (count - 1) as nat);
    }
}

proof fn lemma_two_pow_le(a: nat, b: nat)
    requires
        a <= b,
    ensures
        two_pow(a) <= two_pow(b),
    decreases b,
{
    if a < b {
        lemma_two_pow_le(a, (b - 1) as nat);
    }
}

/// BIP39 word number `n` of entropy with its checksum: the 11 bits from bit `11 * n` on.
fn word_index(entropy: &[u8], n: usize) -> (r: usize)
    requires
        (n + 1) * 11 <= entropy@.len() * 8,
        entropy@.len() <= 64,
    ensures
        r == bits_value(entropy@, n * 11, 11),
        r < 2048,
{
    let start = n * 11;
    let mut index: usize = 0;
    let mut j: usize = 0;
    proof {
        reveal_with_fuel(two_pow, 12);
    }
    while j < 11
        invariant
            start == n * 11,
            start + 11 <= entropy@.len() * 8,
            entropy@.len() <= 64,
            j <= 11,
            index == bits_value(entropy@, start as int, j as nat),
            two_pow(11) == 2048,
        decreases 11 - j,
    {
        let k = start + j;
        let byte = entropy[k / 8];
        let shift = (7 - k % 8) as u8;
        let set = byte & (1u8 << shift) != 0;
        proof {
            lemma_bits_value_bound(entropy@, start as int, j as nat);
            lemma_two_pow_le(j as nat, 10);
            lemma_two_pow_le(10, 11);
            assert(two_pow(10) == 1024) by {
                reveal_with_fuel(two_pow, 11);
            }
        }
        index = index * 2 + if set {
            1
        } else {
            0
        };
        j = j + 1;
    }
    proof {
        lemma_bits_value_bound(entropy@, start as int, 11);
    }
    index
}

/// Texts of the words of a word list.
pub open spec fn word_list(words: Seq<&str>) -> Seq<Seq<char>> {
    words.map_values(|w: &str| w@)
}

/// Word number `i` of a list, empty when the list is shorter.
pub open spec fn word_at(words: Seq<Seq<char>>, i: int) -> Seq<char> {
    if 0 <= i < words.len() {
        words[i]
    } else {
        Seq::empty()
    }
}

/// Words joined by single spaces, as they are appended one after the other.
pub open spec fn joined(list: Seq<Seq<char>>) -> Seq<char>
    decreases list.len(),
{
    if list.len() == 0 {
        Seq::empty()
    } else {
        let init = joined(list.drop_last());
        if init.len() == 0 {
            list.last()
        } else {
            init + seq![' '] + list.last()
        }
    }
}

/// Words of a Compact SeedQR: word number `n` is the one at the index written by bits
/// `11 * n .. 11 * n + 11` of the entropy with its checksum; `None` when one is missing.
pub open spec fn compact_seed_phrase(entropy: Seq<u8>, words: Seq<Seq<char>>, count: nat) -> Option<
    Seq<Seq<char>>,
>
    decreases count,
{
    if count == 0 {
        Some(Seq::empty())
    } else {
        match compact_seed_phrase(entropy, words, (count - 1) as nat) {
            Some(l) => {
                let w = word_at(words, bits_value(entropy, (count - 1) * 11, 11) as int);
                if w.len() == 0 {
                    None
                } else {
                    Some(l.push(w))
                }
            },
            None => None,
        }
    }
}

proof fn lemma_compact_none_stays(entropy: Seq<u8>, words: Seq<Seq<char>>, a: nat, b: nat)
    requires
        a <= b,
        compact_seed_phrase(entropy, words, a) is None,
    ensures
        compact_seed_phrase(entropy, words, b) is None,
    decreases b,
{
    if a < b {
        lemma_compact_none_stays(entropy, words, a, (b - 1) as nat);
    }
}

/// Append `w` to the joined words in `out`.
fn append_word(out: &mut Vec<char>, w: &str)
    ensures
        final(out)@ == (if old(out)@.len() == 0 {
            w@
        } else {
            old(out)@ + seq![' '] + w@
        }),
{
    let wc = chars_of(w);
    let ghost o = out@;
    if out.len() > 0 {
        out.push(' ');
    }
    let ghost o2 = out@;
    let mut k: usize = 0;
    while k < wc.len()
        invariant
            k <= wc@.len(),
            out@ == o2 + wc@.take(k as int),
        decreases wc@.len() - k,
    {
        out.push(wc[k]);
        k = k + 1;
        assert(out@ =~= o2 + wc@.take(k as int));
    }
    assert(wc@.take(wc@.len() as int) =~= wc@);
    assert(o.len() == 0 ==> o2 =~= Seq::<char>::empty());
}

/// The word of a list at `index`, empty when there is none.
fn word_of<'a>(words: &Vec<&'a str>, index: usize) -> (r: &'a str)
    ensures
        r@ == word_at(word_list(words@), index as int),
{
    if index < words.len() {
        words[index]
    } else {
        proof {
            reveal_strlit("");
        }
        ""
    }
}

/// Decode the recovery phrase of a Compact SeedQR from entropy with its checksum.
fn compact_seed_words(entropy: &[u8], words: &Vec<&str>, total_words: usize) -> (r: Option<
    Vec<char>,
>)
    requires
        total_words * 11 <= entropy@.len() * 8,
        entropy@.len() <= 64,
    ensures
        match compact_seed_phrase(entropy@, word_list(words@), total_words as nat) {
            Some(l) => r matches Some(t) && t@ == joined(l),
            None => r is None,
        },
{
    let ghost ws = word_list(words@);
    let mut out: Vec<char> = Vec::new();
    let mut n: usize = 0;
    let ghost mut list: Seq<Seq<char>> = Seq::empty();
    while n < total_words
        invariant
            total_words * 11 <= entropy@.len() * 8,
            entropy@.len() <= 64,
            n <= total_words,
            ws == word_list(words@),
            compact_seed_phrase(entropy@, ws, n as nat) == Some(list),
            out@ == joined(list),
        decreases total_words - n,
    {
        let index = word_index(entropy, n);
        let w = word_of(words, index);
        if w.is_empty() {
            proof {
                assert(compact_seed_phrase(entropy@, ws, (n + 1) as nat) is None);
                lemma_compact_none_stays(entropy@, ws, (n + 1) as nat, total_words as nat);
            }
            return None;
        }
        append_word(&mut out, w);
        proof {
            let l2 = list.push(w@);
            assert(l2.drop_last() =~= list);
            list = l2;
        }
        n = n + 1;
    }
    Some(out)
}


/// What `char::is_numeric` returns: whether the character has one of the Unicode
/// general categories for numbers.
pub uninterp spec fn is_numeric(c: char) -> bool;

/// Check if a character is numeric (`char::is_numeric`). The Unicode category tables
/// are not restated beyond ASCII: the result is named by [`is_numeric`], and of the ASCII
/// characters the digits `0` to `9` alone are numeric.
#[verifier::external_body]
fn char_is_numeric(c: char) -> (r: bool)
    ensures
        r == is_numeric(c),
        (c as u32) < 128 ==> (r == ('0' <= c && c <= '9')),
{
    c.is_numeric()
}

/// Amount of words in a supported recovery phrase.
pub open spec fn is_phrase_size(n: int) -> bool {
    n == 12 || n == 15 || n == 18 || n == 21 || n == 24
}

/// Recovery phrase size.
#[derive(PartialEq, Eq, Structural, Clone, Copy)]
pub enum PhraseSize {
    Words12,
    Words15,
    Words18,
    Words21,
    Words24,
}

impl PhraseSize {
    /// Amount of words.
    pub fn value(&self) -> (r: usize)
        ensures
            r == self.value_spec(),
    {
        match self {
            PhraseSize::Words12 => 12,
            PhraseSize::Words15 => 15,
            PhraseSize::Words18 => 18,
            PhraseSize::Words21 => 21,
            PhraseSize::Words24 => 24,
        }
    }

    /// Phrase size for an amount of words, `None` when it is not supported.
    pub fn type_for_value(count: usize) -> (r: Option<PhraseSize>)
        ensures
            r == size_for(count as int),
    {
        match count {
            12 => Some(PhraseSize::Words12),
            15 => Some(PhraseSize::Words15),
            18 => Some(PhraseSize::Words18),
            21 => Some(PhraseSize::Words21),
            24 => Some(PhraseSize::Words24),
            _ => None,
        }
    }

    /// Amount of words.
    pub open spec fn value_spec(&self) -> int {
        match self {
            PhraseSize::Words12 => 12,
            PhraseSize::Words15 => 15,
            PhraseSize::Words18 => 18,
            PhraseSize::Words21 => 21,
            PhraseSize::Words24 => 24,
        }
    }
}

/// Phrase size for an amount of words, `None` when it is not supported.
pub open spec fn size_for(count: int) -> Option<PhraseSize> {
    if count == 12 {
        Some(PhraseSize::Words12)
    } else if count == 15 {
        Some(PhraseSize::Words15)
    } else if count == 18 {
        Some(PhraseSize::Words18)
    } else if count == 21 {
        Some(PhraseSize::Words21)
    } else if count == 24 {
        Some(PhraseSize::Words24)
    } else {
        None
    }
}

/// The amount of words of a phrase size gives back that size, and exactly the supported
/// amounts have a size.
pub proof fn law_phrase_size_round_trip(p: PhraseSize, count: int)
    ensures
        size_for(p.value_spec()) == Some(p),
        is_phrase_size(p.value_spec()),
        size_for(count) is Some <==> is_phrase_size(count),
        size_for(count) matches Some(q) ==> q.value_spec() == count,
{
}

/// Every character is numeric.
pub open spec fn all_numeric(s: Seq<char>) -> bool {
    forall|i: int| 0 <= i < s.len() ==> is_numeric(#[trigger] s[i])
}

/// The text without its leading `0` characters.
pub open spec fn strip_zeros(s: Seq<char>) -> Seq<char>
    decreases s.len(),
{
    if s.len() > 0 && s[0] == '0' {
        strip_zeros(s.drop_first())
    } else {
        s
    }
}

/// Group number `i` of four characters (the last group may be shorter).
pub open spec fn chunk(s: Seq<char>, i: int) -> Seq<char> {
    s.subrange(4 * i, if 4 * i + 4 < s.len() {
        4 * i + 4
    } else {
        s.len() as int
    })
}

/// Amount of groups of four characters.
pub open spec fn chunk_count(s: Seq<char>) -> nat {
    ((s.len() + 3) / 4) as nat
}

/// Word index written by a group of digits: its number without leading zeros, zero
/// for none, and the word list length when it is not a number.
pub open spec fn chunk_index(c: Seq<char>, words_len: nat) -> nat {
    let d = strip_zeros(trim(c));
    if d.len() == 0 {
        0
    } else {
        match parse_unsigned(d, usize::MAX as nat) {
            Some(v) => v,
            None => words_len,
        }
    }
}

/// Words of a Standard SeedQR: the first `count` groups of four digits each give a word
/// index; `None` when an index has no word.
pub open spec fn standard_seed_phrase(text: Seq<char>, words: Seq<Seq<char>>, count: nat) -> Option<
    Seq<Seq<char>>,
>
    decreases count,
{
    if count == 0 {
        Some(Seq::empty())
    } else {
        match standard_seed_phrase(text, words, (count - 1) as nat) {
            Some(l) => {
                let w = word_at(words, chunk_index(chunk(text, count - 1), words.len()) as int);
                if w.len() == 0 {
                    None
                } else {
                    Some(l.push(w))
                }
            },
            None => None,
        }
    }
}

proof fn lemma_standard_none_stays(text: Seq<char>, words: Seq<Seq<char>>, a: nat, b: nat)
    requires
        a <= b,
        standard_seed_phrase(text, words, a) is None,
    ensures
        standard_seed_phrase(text, words, b) is None,
    decreases b,
{
    if a < b {
        lemma_standard_none_stays(text, words, a, (b - 1) as nat);
    }
}

/// Remove leading `0` characters.
fn strip_zeros_exec(cs: &[char]) -> (r: Vec<char>)
    ensures
        r@ == strip_zeros(cs@),
{
    let mut i: usize = 0;
    assert(cs@.skip(0) =~= cs@);
    while i < cs.len() && cs[i] == '0'
        invariant
            i <= cs@.len(),
            strip_zeros(cs@) == strip_zeros(cs@.skip(i as int)),
        decreases cs@.len() - i,
    {
        assert(cs@.skip(i as int).drop_first() =~= cs@.skip(i + 1));
        i = i + 1;
    }
    let mut r: Vec<char> = Vec::new();
    let mut k = i;
    while k < cs.len()
        invariant
            i <= k <= cs@.len(),
            r@ == cs@.subrange(i as int, k as int),
        decreases cs@.len() - k,
    {
        r.push(cs[k]);
        k = k + 1;
        assert(r@ =~= cs@.subrange(i as int, k as int));
    }
    assert(r@ =~= cs@.skip(i as int));
    r
}

/// Decode the recovery phrase of a Standard SeedQR from its text of digit groups.
fn standard_seed_words(text: &[char], words: &Vec<&str>) -> (r: Option<Vec<char>>)
    ensures
        match standard_seed_phrase(text@, word_list(words@), chunk_count(text@)) {
            Some(l) => r matches Some(t) && t@ == joined(l),
            None => r is None,
        },
{
    let ghost ws = word_list(words@);
    let n = text.len();
    let count = n / 4 + if n % 4 == 0 {
        0
    } else {
        1
    };
    assert(count == chunk_count(text@));
    let mut out: Vec<char> = Vec::new();
    let mut i: usize = 0;
    let ghost mut list: Seq<Seq<char>> = Seq::empty();
    while i < count
        invariant
            n == text@.len(),
            count == chunk_count(text@),
            count == n / 4 + if n % 4 == 0 {
                0int
            } else {
                1int
            },
            i <= count,
            ws == word_list(words@),
            ws.len() == words@.len(),
            standard_seed_phrase(text@, ws, i as nat) == Some(list),
            out@ == joined(list),
        decreases count - i,
    {
        assert(4 * i <= n) by (nonlinear_arith)
            requires
                i < count,
                count == n / 4 + if n % 4 == 0 {
                    0int
                } else {
                    1int
                },
        ;
        let from = 4 * i;
        let to = if n - from > 4 {
            from + 4
        } else {
            n
        };
        let mut c: Vec<char> = Vec::new();
        let mut k = from;
        while k < to
            invariant
                from <= k <= to <= n,
                n == text@.len(),
                c@ == text@.subrange(from as int, k as int),
            decreases to - k,
        {
            c.push(text[k]);
            k = k + 1;
            assert(c@ =~= text@.subrange(from as int, k as int));
        }
        assert(c@ == chunk(text@, i as int));
        let t = trim_chars(c.as_slice());
        let d = strip_zeros_exec(t.as_slice());
        let index: usize = if d.len() == 0 {
            0
        } else {
            match parse_usize_chars(d.as_slice()) {
                Some(v) => v,
                None => words.len(),
            }
        };
        assert(index as nat == chunk_index(chunk(text@, i as int), ws.len()));
        let w = word_of(words, index);
        if w.is_empty() {
            proof {
                assert(standard_seed_phrase(text@, ws, (i + 1) as nat) is None);
                lemma_standard_none_stays(text@, ws, (i + 1) as nat, count as nat);
            }
            return None;
        }
        append_word(&mut out, w);
        proof {
            let l2 = list.push(w@);
            assert(l2.drop_last() =~= list);
            list = l2;
        }
        i = i + 1;
    }
    Some(out)
}


/// QR code scan result.
pub enum QrScanResult {
    /// Slatepack message.
    Slatepack(String),
    /// Slatepack address.
    Address(String),
    /// Parsed text.
    Text(String),
    /// Recovery phrase in standard or compact SeedQR format.
    SeedQR(String),
    /// Part of Uniform Resources as URI with current index and total messages amount.
    URPart(String, usize, usize),
}

/// Content of a QR code scan result.
pub enum QrContent {
    Slatepack(Seq<char>),
    Address(Seq<char>),
    Text(Seq<char>),
    SeedQR(Seq<char>),
    URPart(Seq<char>, nat, nat),
}

impl View for QrScanResult {
    type V = QrContent;

    open spec fn view(&self) -> QrContent {
        match self {
            QrScanResult::Slatepack(t) => QrContent::Slatepack(t@),
            QrScanResult::Address(t) => QrContent::Address(t@),
            QrScanResult::Text(t) => QrContent::Text(t@),
            QrScanResult::SeedQR(t) => QrContent::SeedQR(t@),
            QrScanResult::URPart(t, i, n) => QrContent::URPart(t@, *i as nat, *n as nat),
        }
    }
}

/// Text of a scan result content.
pub open spec fn content_text(c: QrContent) -> Seq<char> {
    match c {
        QrContent::Slatepack(t) => t,
        QrContent::Address(t) => t,
        QrContent::Text(t) => t,
        QrContent::SeedQR(t) => t,
        QrContent::URPart(t, _, _) => t,
    }
}

impl QrScanResult {
    /// Get text scanning result.
    pub fn text(&self) -> (r: String)
        ensures
            r@ == content_text(self@),
    {
        match self {
            QrScanResult::Slatepack(text) => text.clone(),
            QrScanResult::Address(text) => text.clone(),
            QrScanResult::Text(text) => text.clone(),
            QrScanResult::SeedQR(text) => text.clone(),
            QrScanResult::URPart(uri, _, _) => uri.clone(),
        }
    }
}

/// QR code scan state.
pub struct QrScanState {
    /// Flag to check if image is processing to find QR code.
    pub image_processing: bool,
    /// Found QR code content.
    pub qr_scan_result: Option<QrScanResult>,
}

impl Default for QrScanState {
    /// State before scanning.
    fn default() -> (s: Self)
        ensures
            !s.image_processing,
            s.qr_scan_result is None,
    {
        QrScanState { image_processing: false, qr_scan_result: None }
    }
}

/// QR code image creation state.
pub struct QrCreationState {
    /// Flag to check if QR code image is creating.
    pub creating: bool,
    /// Vector image data.
    pub svg: Option<Vec<u8>>,
    /// Multiple vector image data.
    pub svg_list: Option<Vec<Vec<u8>>>,
}

impl Default for QrCreationState {
    /// State before creation.
    fn default() -> (s: Self)
        ensures
            !s.creating,
            s.svg is None,
            s.svg_list is None,
    {
        QrCreationState { creating: false, svg: None, svg_list: None }
    }
}

/// Compact SeedQR data size: 16 to 32 bytes, a multiple of 4.
pub open spec fn is_compact_seed_size(len: nat) -> bool {
    16 <= len <= 32 && len % 4 == 0
}

/// Amount of words of a Compact SeedQR of `len` bytes: entropy bits and checksum bits
/// (one per 32 entropy bits), 11 bits per word.
pub open spec fn compact_word_count(len: nat) -> nat {
    ((len * 8 + len * 8 / 32) / 11) as nat
}

/// Recovery phrase of a Compact SeedQR, `None` when the data is not one.
pub open spec fn compact_seed_text(data: Seq<u8>, checksum: u8, words: Seq<Seq<char>>) -> Option<
    Seq<char>,
> {
    if is_compact_seed_size(data.len()) {
        match compact_seed_phrase(data.push(checksum), words, compact_word_count(data.len())) {
            Some(l) => if joined(l).len() > 0 {
                Some(joined(l))
            } else {
                None
            },
            None => None,
        }
    } else {
        None
    }
}

/// Text starts with a Grin address prefix.
pub open spec fn has_address_prefix(text: Seq<char>) -> bool {
    has_prefix(text, seq!['t', 'g', 'r', 'i', 'n']) || has_prefix(text, seq!['g', 'r', 'i', 'n'])
}

pub open spec fn slatepack_begin() -> Seq<char> {
    seq!['B', 'E', 'G', 'I', 'N', 'S', 'L', 'A', 'T', 'E', 'P', 'A', 'C', 'K', '.']
}

pub open spec fn slatepack_end() -> Seq<char> {
    seq!['E', 'N', 'D', 'S', 'L', 'A', 'T', 'E', 'P', 'A', 'C', 'K', '.']
}

/// Text is a Slatepack message: it begins and ends with the Slatepack markers.
pub open spec fn is_slatepack(text: Seq<char>) -> bool {
    has_prefix(text, slatepack_begin()) && has_suffix(text, slatepack_end())
}

/// Scanned data is a Standard SeedQR candidate: non-empty numeric text of at most 96
/// bytes, a multiple of 4, whose byte length divided by 4 is a phrase size.
pub open spec fn is_standard_seed_candidate(data: Seq<u8>, text: Seq<char>) -> bool {
    &&& text.len() > 0
    &&& data.len() <= 96
    &&& data.len() % 4 == 0
    &&& all_numeric(text)
    &&& is_phrase_size((encode_utf8(text).len() / 4) as int)
}

/// Part number written in Uniform Resources text, zero when there is none.
pub open spec fn ur_part_number(text: Seq<char>) -> nat {
    match ur_numbers(text) {
        Some((i, _)) => i,
        None => 0,
    }
}

/// The scanned data would be read as a Uniform Resources part.
pub open spec fn is_ur_part(text: Seq<char>, address_valid: bool) -> bool {
    &&& !(has_address_prefix(text) && address_valid)
    &&& !is_slatepack(text)
    &&& has_prefix(text, ur_prefix())
    &&& ur_numbers(text) is Some
}

/// Classification of scanned data. `address_valid` tells whether the trimmed text is a
/// valid Slatepack address, `checksum` is the BIP39 checksum byte of the data and `words`
/// the BIP39 word list.
pub open spec fn qr_content(data: Seq<u8>, address_valid: bool, checksum: u8, words: Seq<Seq<char>>) -> QrContent {
    let full = decoded_text(data);
    let text = trim(full);
    if has_address_prefix(text) && address_valid {
        QrContent::Address(text)
    } else if is_slatepack(text) {
        QrContent::Slatepack(text)
    } else if has_prefix(text, ur_prefix()) && ur_numbers(text) is Some {
        let (i, t) = ur_numbers(text)->0;
        QrContent::URPart(full, (i - 1) as nat, t)
    } else if compact_seed_text(data, checksum, words) is Some {
        QrContent::SeedQR(compact_seed_text(data, checksum, words)->0)
    } else if is_standard_seed_candidate(data, text) {
        match standard_seed_phrase(trim(text), words, chunk_count(trim(text))) {
            Some(l) => QrContent::SeedQR(joined(l)),
            None => QrContent::Text(text),
        }
    } else {
        QrContent::Text(text)
    }
}

fn chars_literal(s: &str) -> (r: Vec<char>)
    ensures
        r@ == s@,
{
    chars_of(s)
}

proof fn lemma_encode_len(s: Seq<char>)
    ensures
        encode_utf8(s).len() <= 4 * s.len(),
    decreases s.len(),
{
    if s.len() > 0 {
        lemma_encode_len(s.drop_first());
    }
}

proof fn lemma_decode_len(b: Seq<u8>)
    requires
        valid_utf8(b),
    ensures
        decode_utf8(b).len() <= b.len(),
    decreases b.len(),
{
    if b.len() > 0 {
        let rest = vstd::utf8::pop_first_scalar(b);
        assert(rest.len() < b.len());
        lemma_decode_len(rest);
    }
}

proof fn lemma_trim_start_len(s: Seq<char>)
    ensures
        crate::text::trim_start(s).len() <= s.len(),
    decreases s.len(),
{
    if s.len() > 0 {
        lemma_trim_start_len(s.drop_first());
    }
}

proof fn lemma_trim_end_len(s: Seq<char>)
    ensures
        crate::text::trim_end(s).len() <= s.len(),
    decreases s.len(),
{
    if s.len() > 0 {
        lemma_trim_end_len(s.drop_last());
    }
}

/// Of the ASCII characters of a text, the digits `0` to `9` alone are numeric.
pub open spec fn ascii_digits_numeric(t: Seq<char>) -> bool {
    forall|i: int|
        0 <= i < t.len() && (#[trigger] t[i] as u32) < 128 ==> (is_numeric(t[i]) == ('0' <= t[i]
            && t[i] <= '9'))
}

/// Check if all characters are numeric, looking at each of them.
fn only_numbers(cs: &[char]) -> (r: bool)
    ensures
        r == all_numeric(cs@),
        ascii_digits_numeric(cs@),
{
    let mut all = true;
    let mut i: usize = 0;
    while i < cs.len()
        invariant
            i <= cs@.len(),
            all == (forall|k: int| 0 <= k < i ==> is_numeric(#[trigger] cs@[k])),
            forall|k: int|
                0 <= k < i && (#[trigger] cs@[k] as u32) < 128 ==> (is_numeric(cs@[k]) == ('0'
                    <= cs@[k] && cs@[k] <= '9')),
        decreases cs@.len() - i,
    {
        if !char_is_numeric(cs[i]) {
            all = false;
        }
        i = i + 1;
    }
    all
}

/// Parse QR code scan result from scanned data. `address_valid` is whether the trimmed
/// text of the data is a valid Slatepack address, `checksum` the BIP39 checksum byte of
/// the data (its part of a Compact SeedQR) and `words` the BIP39 word list.
pub fn parse_qr_code(data: &Vec<u8>, address_valid: bool, checksum: u8, words: &Vec<&str>) -> (r:
    QrScanResult)
    requires
        is_ur_part(trim(decoded_text(data@)), address_valid) ==> ur_part_number(
            trim(decoded_text(data@)),
        ) >= 1,
    ensures
        r@ == qr_content(data@, address_valid, checksum, word_list(words@)),
        ascii_digits_numeric(trim(decoded_text(data@))),
{
    let text_string = decode_text(data.as_slice());
    let full = chars_of(text_string.as_str());
    let text_chars = trim_chars(full.as_slice());
    let text = string_from_chars(text_chars.as_slice());
    let numeric = only_numbers(text_chars.as_slice());
    let ghost t = text@;
    proof {
        reveal_strlit("tgrin");
        reveal_strlit("grin");
        reveal_strlit("BEGINSLATEPACK.");
        reveal_strlit("ENDSLATEPACK.");
    }
    let tgrin = chars_literal("tgrin");
    let grin = chars_literal("grin");
    assert(tgrin@ =~= seq!['t', 'g', 'r', 'i', 'n']);
    assert(grin@ =~= seq!['g', 'r', 'i', 'n']);
    if starts_with(text_chars.as_slice(), tgrin.as_slice()) || starts_with(
        text_chars.as_slice(),
        grin.as_slice(),
    ) {
        if address_valid {
            return QrScanResult::Address(text);
        }
    }
    let begin = chars_literal("BEGINSLATEPACK.");
    let end = chars_literal("ENDSLATEPACK.");
    assert(begin@ =~= slatepack_begin());
    assert(end@ =~= slatepack_end());
    if starts_with(text_chars.as_slice(), begin.as_slice()) && ends_with(
        text_chars.as_slice(),
        end.as_slice(),
    ) {
        return QrScanResult::Slatepack(text);
    }
    let ur = ur_prefix_chars();
    if starts_with(text_chars.as_slice(), ur.as_slice()) {
        match parse_ur_numbers(text_chars.as_slice()) {
            Some((index, total)) => {
                return QrScanResult::URPart(text_string, index - 1, total);
            },
            None => {},
        }
    }
    let len = data.len();
    if len <= 32 && 16 <= len && len % 4 == 0 {
        let total_bits = len * 8;
        let checksum_bits = total_bits / 32;
        let total_words = (total_bits + checksum_bits) / 11;
        let mut entropy = data.clone();
        entropy.push(checksum);
        assert(entropy@ == data@.push(checksum));
        assert(total_words * 11 <= entropy@.len() * 8);
        match compact_seed_words(entropy.as_slice(), words, total_words) {
            Some(w) => {
                if w.len() > 0 {
                    return QrScanResult::SeedQR(string_from_chars(w.as_slice()));
                }
            },
            None => {},
        }
    }
    if text_chars.len() > 0 && len <= 96 && len % 4 == 0 && numeric {
        proof {
            if valid_utf8(data@) {
                lemma_decode_len(data@);
            }
            lemma_trim_start_len(full@);
            lemma_trim_end_len(crate::text::trim_start(full@));
            lemma_encode_len(t);
        }
        match PhraseSize::type_for_value(text.as_str().len() / 4) {
            Some(_) => {
                let again = trim_chars(text_chars.as_slice());
                match standard_seed_words(again.as_slice(), words) {
                    Some(w) => {
                        return QrScanResult::SeedQR(string_from_chars(w.as_slice()));
                    },
                    None => {
                        return QrScanResult::Text(text);
                    },
                }
            },
            None => {},
        }
    }
    QrScanResult::Text(text)
}


/// Parse scanned data as [`parse_qr_code`] does, except Uniform Resources data whose part
/// number is zero, which is no part of a message: `None` for it.
pub fn scan_qr_code(data: &Vec<u8>, address_valid: bool, checksum: u8, words: &Vec<&str>) -> (r:
    Option<QrScanResult>)
    ensures
        ({
            let t = trim(decoded_text(data@));
            match r {
                Some(res) => !(is_ur_part(t, address_valid) && ur_part_number(t) == 0) && res@
                    == qr_content(data@, address_valid, checksum, word_list(words@)),
                None => is_ur_part(t, address_valid) && ur_part_number(t) == 0,
            }
        }),
        ascii_digits_numeric(trim(decoded_text(data@))),
{
    let text_string = decode_text(data.as_slice());
    let full = chars_of(text_string.as_str());
    let text_chars = trim_chars(full.as_slice());
    // Look at every character of the text, as the parser does.
    let _ = only_numbers(text_chars.as_slice());
    let ghost t = text_chars@;
    proof {
        reveal_strlit("tgrin");
        reveal_strlit("grin");
        reveal_strlit("BEGINSLATEPACK.");
        reveal_strlit("ENDSLATEPACK.");
    }
    let tgrin = chars_literal("tgrin");
    let grin = chars_literal("grin");
    assert(tgrin@ =~= seq!['t', 'g', 'r', 'i', 'n']);
    assert(grin@ =~= seq!['g', 'r', 'i', 'n']);
    let address = (starts_with(text_chars.as_slice(), tgrin.as_slice()) || starts_with(
        text_chars.as_slice(),
        grin.as_slice(),
    )) && address_valid;
    let begin = chars_literal("BEGINSLATEPACK.");
    let end = chars_literal("ENDSLATEPACK.");
    assert(begin@ =~= slatepack_begin());
    assert(end@ =~= slatepack_end());
    let slatepack = starts_with(text_chars.as_slice(), begin.as_slice()) && ends_with(
        text_chars.as_slice(),
        end.as_slice(),
    );
    let ur = ur_prefix_chars();
    if !address && !slatepack && starts_with(text_chars.as_slice(), ur.as_slice()) {
        match parse_ur_numbers(text_chars.as_slice()) {
            Some((index, _)) => {
                if index == 0 {
                    return None;
                }
            },
            None => {},
        }
    }
    Some(parse_qr_code(data, address_valid, checksum, words))
}

/// Texts of stored parts of Uniform Resources data.
pub open spec fn part_texts(parts: Seq<String>) -> Seq<Seq<char>> {
    parts.map_values(|p: String| p@)
}

/// Number of received parts: the stored texts that are not empty.
pub open spec fn received_count(parts: Seq<Seq<char>>) -> nat
    decreases parts.len(),
{
    if parts.len() == 0 {
        0
    } else {
        received_count(parts.drop_last()) + if parts.last().len() > 0 {
            1nat
        } else {
            0nat
        }
    }
}

/// Scanning progress of Uniform Resources data in percents: none without stored parts,
/// else the received parts against the expected total, truncated to `i32` as computed.
pub open spec fn ur_progress_of(ur_data: Option<(Seq<Seq<char>>, usize)>) -> i32 {
    match ur_data {
        None => 0,
        Some((parts, total)) => if parts.len() == 0 {
            0
        } else {
            ((100 * received_count(parts)) / (total as nat)) as i32
        },
    }
}

/// Stored parts with their texts taken by view.
pub open spec fn ur_data_view(ur_data: Option<(Vec<String>, usize)>) -> Option<(Seq<Seq<char>>, usize)> {
    match ur_data {
        None => None,
        Some((parts, total)) => Some((part_texts(parts@), total)),
    }
}

/// Get Uniform Resources data scanning progress in percents.
pub fn ur_progress(ur_data: &Option<(Vec<String>, usize)>) -> (r: i32)
    requires
        ur_data matches Some((parts, total)) ==> (parts.len() > 0 ==> total > 0) && 100 * parts.len()
            <= usize::MAX,
    ensures
        r == ur_progress_of(ur_data_view(*ur_data)),
{
    match ur_data {
        None => 0,
        Some((data, total)) => {
            if data.len() == 0 {
                return 0;
            }
            let ghost texts = part_texts(data@);
            let mut complete: usize = 0;
            let mut i: usize = 0;
            while i < data.len()
                invariant
                    i <= data@.len(),
                    texts == part_texts(data@),
                    complete == received_count(texts.take(i as int)),
                    complete <= i,
                decreases data@.len() - i,
            {
                assert(texts.take(i + 1).drop_last() =~= texts.take(i as int));
                if !data[i].as_str().is_empty() {
                    complete = complete + 1;
                }
                i = i + 1;
            }
            assert(texts.take(data@.len() as int) =~= texts);
            let percent = 100 * complete / *total;
            percent as i32
        },
    }
}

/// Parts that a new part joins: the stored parts, or `total` empty texts when none are
/// stored.
pub open spec fn current_parts(ur_data: Option<(Seq<Seq<char>>, usize)>, total: usize) -> Seq<
    Seq<char>,
> {
    match ur_data {
        Some((parts, _)) => parts,
        None => Seq::new(total as nat, |i: int| Seq::<char>::empty()),
    }
}

/// Store a scanned part of Uniform Resources data: a part already stored changes nothing
/// (`None`); another one is inserted at its index into the current parts, which are
/// stored with the total of the new part.
pub fn store_ur_part(ur_data: &Option<(Vec<String>, usize)>, uri: String, index: usize, total: usize) -> (r:
    Option<(Vec<String>, usize)>)
    requires
        !current_parts(ur_data_view(*ur_data), total).contains(uri@) ==> index <= current_parts(
            ur_data_view(*ur_data),
            total,
        ).len(),
    ensures
        r is None <==> current_parts(ur_data_view(*ur_data), total).contains(uri@),
        r matches Some((parts, t)) ==> t == total && part_texts(parts@) == current_parts(
            ur_data_view(*ur_data),
            total,
        ).insert(index as int, uri@),
{
    let mut cur: Vec<String> = match ur_data {
        Some((d, _)) => d.clone(),
        None => {
            let mut v: Vec<String> = Vec::new();
            let mut k: usize = 0;
            while k < total
                invariant
                    k <= total,
                    v@.len() == k,
                    forall|j: int| 0 <= j < k ==> (#[trigger] v@[j])@ == Seq::<char>::empty(),
                decreases total - k,
            {
                v.push(String::new());
                k = k + 1;
            }
            v
        },
    };
    let ghost parts = current_parts(ur_data_view(*ur_data), total);
    assert(part_texts(cur@) =~= parts);
    let mut found = false;
    let mut i: usize = 0;
    while i < cur.len()
        invariant
            i <= cur@.len(),
            part_texts(cur@) == parts,
            found <==> exists|j: int| 0 <= j < i && parts[j] == uri@,
        decreases cur@.len() - i,
    {
        if same_text(cur[i].as_str(), uri.as_str()) {
            found = true;
        }
        assert(parts[i as int] == cur@[i as int]@);
        i = i + 1;
    }
    if found {
        assert(parts.contains(uri@));
        return None;
    }
    assert(!parts.contains(uri@));
    cur.insert(index, uri);
    assert(part_texts(cur@) =~= parts.insert(index as int, uri@));
    Some((cur, total))
}

proof fn received_count_all(parts: Seq<Seq<char>>)
    requires
        forall|i: int| 0 <= i < parts.len() ==> (#[trigger] parts[i]).len() > 0,
    ensures
        received_count(parts) == parts.len(),
    decreases parts.len(),
{
    if parts.len() > 0 {
        received_count_all(parts.drop_last());
    }
}

/// When every stored part has been received and their number is the expected total,
/// the scanning progress is complete: 100 percents.
pub proof fn law_all_parts_complete(parts: Seq<Seq<char>>, total: usize)
    requires
        parts.len() == total,
        total > 0,
        forall|i: int| 0 <= i < parts.len() ==> (#[trigger] parts[i]).len() > 0,
    ensures
        ur_progress_of(Some((parts, total))) == 100,
{
    received_count_all(parts);
    assert((100 * (total as nat)) / (total as nat) == 100) by (nonlinear_arith)
        requires
            total > 0,
    ;
}

/// A stored part is found among the parts afterwards: scanning it again stores nothing.
pub proof fn law_stored_part_found(parts: Seq<Seq<char>>, uri: Seq<char>, index: int)
    requires
        0 <= index <= parts.len(),
    ensures
        parts.insert(index, uri).contains(uri),
{
    assert(parts.insert(index, uri)[index] == uri);
}

proof fn received_count_concat(a: Seq<Seq<char>>, b: Seq<Seq<char>>)
    ensures
        received_count(a + b) == received_count(a) + received_count(b),
    decreases b.len(),
{
    if b.len() > 0 {
        assert((a + b).drop_last() =~= a + b.drop_last());
        received_count_concat(a, b.drop_last());
    } else {
        assert(a + b =~= a);
    }
}

/// Storing a new, non-empty part raises the number of received parts by one.
pub proof fn law_new_part_counts_once(parts: Seq<Seq<char>>, uri: Seq<char>, index: int)
    requires
        0 <= index <= parts.len(),
        uri.len() > 0,
    ensures
        received_count(parts.insert(index, uri)) == received_count(parts) + 1,
{
    let front = parts.take(index);
    let back = parts.skip(index);
    assert(parts.insert(index, uri) =~= front + seq![uri] + back);
    assert(parts =~= front + back);
    received_count_concat(front + seq![uri], back);
    received_count_concat(front, seq![uri]);
    received_count_concat(front, back);
    assert(seq![uri].drop_last() =~= Seq::<Seq<char>>::empty());
    assert(received_count(Seq::<Seq<char>>::empty()) == 0);
    assert(received_count(seq![uri]) == 1);
}

/// A scanned text that starts with `grin` or `tgrin` (a mainnet or testnet Slatepack
/// address) and is a valid address is read as that address, whatever else it holds, and
/// it is never taken for a Uniform Resources part.
pub proof fn law_address_prefixes(data: Seq<u8>, address_valid: bool, checksum: u8, words: Seq<Seq<char>>)
    requires
        address_valid,
        ({
            let t = trim(decoded_text(data));
            (t.len() >= 4 && t.take(4) == seq!['g', 'r', 'i', 'n']) || (t.len() >= 5 && t.take(5)
                == seq!['t', 'g', 'r', 'i', 'n'])
        }),
    ensures
        qr_content(data, address_valid, checksum, words) == QrContent::Address(
            trim(decoded_text(data)),
        ),
        !is_ur_part(trim(decoded_text(data)), address_valid),
{
    let t = trim(decoded_text(data));
    if t.len() >= 4 && t.take(4) == seq!['g', 'r', 'i', 'n'] {
        assert(t.subrange(0, 4) =~= t.take(4));
    } else {
        assert(t.subrange(0, 5) =~= t.take(5));
    }
}

} // verus!
