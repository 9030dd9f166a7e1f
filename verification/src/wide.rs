//! UTF-16 ("wide") text as the Win32 API takes it, and the packing of small
//! integers into the words and colours that the API uses.
use vstd::prelude::*;

verus! {

broadcast use vstd::array::group_array_axioms;

/// The UTF-16 code units of one character: the scalar value itself below
/// U+10000, a surrogate pair above.
pub open spec fn utf16_of_char(c: char) -> Seq<u16> {
    let v = c as int;
    if v < 0x10000 {
        seq![v as u16]
    } else {
        let w = v - 0x10000;
        seq![(0xD800 + w / 0x400) as u16, (0xDC00 + w % 0x400) as u16]
    }
}

/// The UTF-16 encoding of a character sequence.
pub open spec fn utf16_encode(s: Seq<char>) -> Seq<u16>
    decreases s.len(),
{
    if s.len() == 0 {
        Seq::empty()
    } else {
        utf16_encode(s.drop_last()) + utf16_of_char(s.last())
    }
}

/// Appends the UTF-16 code units of `c` to `out`.
fn push_utf16(out: &mut Vec<u16>, c: char)
    ensures
        final(out)@ == old(out)@ + utf16_of_char(c),
{
    let v: u32 = c as u32;
    if v < 0x10000 {
        out.push(v as u16);
    } else {
        let w: u32 = v - 0x10000;
        assert(w < 0x100000);
        let high: u16 = (0xD800 + w / 0x400) as u16;
        let low: u16 = (0xDC00 + w % 0x400) as u16;
        out.push(high);
        out.push(low);
    }
}

/// The UTF-16 code units of `value`, without a terminator.
pub fn to_text_wide(value: &str) -> (r: Vec<u16>)
    ensures
        r@ == utf16_encode(value@),
{
    let n = value.unicode_len();
    let mut out: Vec<u16> = Vec::new();
    let mut i: usize = 0;
    while i < n
        invariant
            n == value@.len(),
            i <= n,
            out@ == utf16_encode(value@.take(i as int)),
        decreases n - i,
    {
        let c = value.get_char(i);
        push_utf16(&mut out, c);
        assert(value@.take(i + 1).drop_last() =~= value@.take(i as int));
        i = i + 1;
    }
    assert(value@.take(n as int) =~= value@);
    out
}

/// The UTF-16 code units of `value` followed by a terminating zero, as the
/// Win32 API takes a string.
pub fn to_wide(value: &str) -> (r: Vec<u16>)
    ensures
        r@ == utf16_encode(value@).push(0),
{
    let mut out = to_text_wide(value);
    out.push(0);
    out
}

/// Encoding a concatenation encodes each part.
pub proof fn lemma_utf16_concat(a: Seq<char>, b: Seq<char>)
    ensures
        utf16_encode(a + b) == utf16_encode(a) + utf16_encode(b),
    decreases b.len(),
{
    if b.len() == 0 {
        assert(a + b =~= a);
        assert(utf16_encode(b) =~= Seq::<u16>::empty());
        assert(utf16_encode(a) + utf16_encode(b) =~= utf16_encode(a));
    } else {
        lemma_utf16_concat(a, b.drop_last());
        assert((a + b).drop_last() =~= a + b.drop_last());
        assert((a + b).last() == b.last());
        assert(utf16_encode(a) + utf16_encode(b) =~= utf16_encode(a) + utf16_encode(b.drop_last())
            + utf16_of_char(b.last()));
    }
}

pub open spec fn is_surrogate(u: u16) -> bool {
    0xD800 <= u <= 0xDFFF
}

pub open spec fn is_high_surrogate(u: u16) -> bool {
    0xD800 <= u <= 0xDBFF
}

pub open spec fn is_low_surrogate(u: u16) -> bool {
    0xDC00 <= u <= 0xDFFF
}

/// The character a surrogate pair stands for.
pub open spec fn pair_char(high: u16, low: u16) -> char {
    (0x10000 + (high - 0xD800) * 0x400 + (low - 0xDC00)) as char
}

/// Lossy UTF-16 decoding: each unit outside the surrogate range is its
/// character, a high surrogate followed by a low one is the character of
/// the pair, and every other surrogate becomes U+FFFD.
pub open spec fn spec_decode_lossy(u: Seq<u16>) -> Seq<char>
    decreases u.len(),
{
    if u.len() == 0 {
        Seq::empty()
    } else if !is_surrogate(u[0]) {
        seq![u[0] as char] + spec_decode_lossy(u.drop_first())
    } else if is_high_surrogate(u[0]) && u.len() >= 2 && is_low_surrogate(u[1]) {
        seq![pair_char(u[0], u[1])] + spec_decode_lossy(u.skip(2))
    } else {
        seq!['\u{FFFD}'] + spec_decode_lossy(u.drop_first())
    }
}

/// `String::from_utf16_lossy`: decodes UTF-16, replacing every unpaired
/// surrogate with U+FFFD. The contract claims exactly the decoding that
/// `spec_decode_lossy` writes out.
#[verifier::external_body]
pub(crate) fn decode_utf16_lossy(units: &[u16]) -> (r: String)
    ensures
        r@ == spec_decode_lossy(units@),
{
    String::from_utf16_lossy(units)
}

/// Encoding a character and decoding its units gives the character back,
/// whatever follows.
proof fn lemma_decode_char(c: char, rest: Seq<u16>)
    ensures
        spec_decode_lossy(utf16_of_char(c) + rest) == seq![c] + spec_decode_lossy(rest),
{
    let u = utf16_of_char(c) + rest;
    let v = c as int;
    if v < 0x10000 {
        assert(u[0] == v as u16);
        assert(u.drop_first() =~= rest);
        assert((v as u16) as char == c);
    } else {
        let w = v - 0x10000;
        assert(v <= 0x10FFFF);
        assert(u[0] == (0xD800 + w / 0x400) as u16);
        assert(u[1] == (0xDC00 + w % 0x400) as u16);
        assert(u.skip(2) =~= rest);
        assert(0x10000 + (w / 0x400) * 0x400 + w % 0x400 == v);
        assert(pair_char(u[0], u[1]) == c);
    }
}

/// The first character of a sequence is encoded first.
proof fn lemma_encode_first(s: Seq<char>)
    requires
        s.len() > 0,
    ensures
        utf16_encode(s) == utf16_of_char(s[0]) + utf16_encode(s.drop_first()),
{
    lemma_utf16_concat(seq![s[0]], s.drop_first());
    assert(seq![s[0]] + s.drop_first() =~= s);
    assert(seq![s[0]].drop_last() =~= Seq::<char>::empty());
    assert(utf16_encode(Seq::<char>::empty()) =~= Seq::<u16>::empty());
    assert(utf16_encode(seq![s[0]]) =~= utf16_of_char(s[0]));
}

/// Decoding the UTF-16 encoding of a text gives the text back.
pub proof fn lemma_decode_encode(s: Seq<char>)
    ensures
        spec_decode_lossy(utf16_encode(s)) == s,
    decreases s.len(),
{
    if s.len() == 0 {
        assert(utf16_encode(s) =~= Seq::<u16>::empty());
    } else {
        lemma_encode_first(s);
        lemma_decode_char(s[0], utf16_encode(s.drop_first()));
        lemma_decode_encode(s.drop_first());
        assert(seq![s[0]] + s.drop_first() =~= s);
    }
}

/// Copies `src` with its terminator into the fixed buffer `dst`, as much of
/// it as fits; the rest of `dst` is left as it was.
pub fn copy_wide_text<const N: usize>(dst: &mut [u16; N], src: &str)
    ensures
        ({
            let wide = utf16_encode(src@).push(0);
            let len = if wide.len() <= N {
                wide.len() as int
            } else {
                N as int
            };
            &&& final(dst)@.len() == N
            &&& final(dst)@.take(len) == wide.take(len)
            &&& final(dst)@.skip(len) == old(dst)@.skip(len)
        }),
{
    let wide = to_wide(src);
    let len: usize = if wide.len() <= N {
        wide.len()
    } else {
        N
    };
    let ghost before = dst@;
    let mut i: usize = 0;
    while i < len
        invariant
            len <= N,
            len <= wide@.len(),
            i <= len,
            dst@.len() == N,
            before.len() == N,
            forall|j: int| 0 <= j < i ==> #[trigger] dst@[j] == wide@[j],
            forall|j: int| i <= j < N ==> #[trigger] dst@[j] == before[j],
        decreases len - i,
    {
        dst[i] = wide[i];
        i = i + 1;
    }
    assert(dst@.take(len as int) =~= wide@.take(len as int));
    assert(dst@.skip(len as int) =~= before.skip(len as int));
}

/// Reinterprets UTF-16 code units as the little-endian byte string that a
/// registry string value holds.
pub fn wide_to_le_bytes(units: &Vec<u16>) -> (r: Vec<u8>)
    ensures
        r@.len() == 2 * units@.len(),
        forall|i: int|
            0 <= i < units@.len() ==> {
                &&& #[trigger] r@[2 * i] == units@[i] % 256
                &&& r@[2 * i + 1] == units@[i] / 256
            },
{
    let mut out: Vec<u8> = Vec::new();
    let mut i: usize = 0;
    while i < units.len()
        invariant
            i <= units@.len(),
            out@.len() == 2 * i,
            forall|k: int|
                0 <= k < i ==> {
                    &&& #[trigger] out@[2 * k] == units@[k] % 256
                    &&& out@[2 * k + 1] == units@[k] / 256
                },
        decreases units@.len() - i,
    {
        let u = units[i];
        let ghost before = out@;
        out.push((u % 256) as u8);
        out.push((u / 256) as u8);
        assert forall|k: int| 0 <= k <= i implies {
            &&& #[trigger] out@[2 * k] == units@[k] % 256
            &&& out@[2 * k + 1] == units@[k] / 256
        } by {
            if k < i {
                assert(out@[2 * k] == before[2 * k]);
                assert(out@[2 * k + 1] == before[2 * k + 1]);
            }
        }
        i = i + 1;
    }
    out
}

/// The low 16 bits of a message parameter.
pub fn loword(value: usize) -> (r: u16)
    ensures
        r == value % 0x10000,
{
    let r = (value & 0xffff) as u16;
    assert(value & 0xffff == value % 0x10000) by (bit_vector);
    r
}

/// Bits 16 to 31 of a message parameter.
pub fn hiword(value: usize) -> (r: u16)
    ensures
        r == (value / 0x10000) % 0x10000,
{
    let r = ((value >> 16) & 0xffff) as u16;
    assert((value >> 16) & 0xffff == (value / 0x10000) % 0x10000) by (bit_vector);
    r
}

/// A 32-bit parameter is its high word times 65536 plus its low word.
pub proof fn lemma_words_recompose(value: usize)
    requires
        value < 0x1_0000_0000,
    ensures
        value == ((value / 0x10000) % 0x10000) * 0x10000 + value % 0x10000,
{
}

/// The `COLORREF` of a colour: red in the low byte, then green, then blue.
pub fn colorref_from_rgb(r: u8, g: u8, b: u8) -> (c: u32)
    ensures
        c == r + 0x100 * g + 0x10000 * b,
{
    let c = (r as u32) | ((g as u32) << 8) | ((b as u32) << 16);
    let (r32, g32, b32) = (r as u32, g as u32, b as u32);
    assert(r32 < 256 && g32 < 256 && b32 < 256 ==> r32 | (g32 << 8) | (b32 << 16) == r32 + 0x100
        * g32 + 0x10000 * b32) by (bit_vector);
    c
}

} // verus!
