//! Text helpers shared by the error and validation modules: equality of
//! string slices, decimal rendering of integers, and `Debug` quoting.
use vstd::prelude::*;
use vstd::string::*;
use vstd::utf8::*;

verus! {

/// The character of the decimal digit `d` (`0 <= d < 10`).
pub open spec fn digit_char(d: nat) -> char {
    ((48 + d) as u32) as char
}

/// The decimal digits of `n`, most significant first, with no leading zero.
pub open spec fn decimal_digits(n: nat) -> Seq<char>
    decreases n,
{
    if n < 10 {
        seq![digit_char(n)]
    } else {
        decimal_digits(n / 10).push(digit_char(n % 10))
    }
}

/// The decimal text of a signed integer: a `-` before the digits of a
/// negative value.
pub open spec fn signed_decimal(v: int) -> Seq<char> {
    if v < 0 {
        seq!['-'] + decimal_digits((-v) as nat)
    } else {
        decimal_digits(v as nat)
    }
}

/// The text that `format!("{:?}", text)` produces for a string slice: the
/// text in double quotes, with the escapes of `str`'s `Debug`.
pub uninterp spec fn debug_quoted_text(text: Seq<char>) -> Seq<char>;

/// Renders `text` as `str`'s `Debug` implementation does.
///
/// Trusted: calls `format!("{:?}")`, that is `<str as Debug>::fmt`; the
/// contract claims only that the result depends on the text alone.
#[verifier::external_body]
pub(crate) fn debug_quoted(text: &str) -> (quoted: String)
    ensures
        quoted@ == debug_quoted_text(text@),
{
    format!("{text:?}")
}

/// A new `String` holding `s`.
pub(crate) fn owned(s: &str) -> (text: String)
    ensures
        text@ == s@,
{
    let mut text = String::new();
    text.append(s);
    text
}

/// Appends the decimal digits of `n`.
pub(crate) fn push_decimal(text: &mut String, n: u128)
    ensures
        final(text)@ == old(text)@ + decimal_digits(n as nat),
    decreases n,
{
    if n >= 10 {
        push_decimal(text, n / 10);
    }
    let d: u8 = (n % 10) as u8;
    let digit: &str = match d {
        0 => "0",
        1 => "1",
        2 => "2",
        3 => "3",
        4 => "4",
        5 => "5",
        6 => "6",
        7 => "7",
        8 => "8",
        _ => "9",
    };
    proof {
        reveal_strlit("0");
        reveal_strlit("1");
        reveal_strlit("2");
        reveal_strlit("3");
        reveal_strlit("4");
        reveal_strlit("5");
        reveal_strlit("6");
        reveal_strlit("7");
        reveal_strlit("8");
        reveal_strlit("9");
    }
    assert(digit@ == seq![digit_char((n % 10) as nat)]);
    text.append(digit);
    assert(decimal_digits(n as nat) == if n < 10 {
        seq![digit_char(n as nat)]
    } else {
        decimal_digits((n / 10) as nat).push(digit_char((n % 10) as nat))
    });
}

/// Appends the decimal text of a signed value.
pub(crate) fn push_signed_decimal(text: &mut String, v: i64)
    requires
        v > i64::MIN,
    ensures
        final(text)@ == old(text)@ + signed_decimal(v as int),
{
    if v < 0 {
        text.append("-");
        proof {
            reveal_strlit("-");
        }
        push_decimal(text, (-v) as u128);
        assert(old(text)@ + "-"@ + decimal_digits((-v) as nat) =~= old(text)@ + (seq!['-']
            + decimal_digits((-v) as nat)));
    } else {
        push_decimal(text, v as u128);
    }
}

/// The length of the UTF-8 encoding of one scalar that starts at byte `i`,
/// or 0 when the bytes from `i` on do not start with one.
fn first_scalar_len(bytes: &[u8], i: usize) -> (n: usize)
    requires
        i < bytes@.len(),
    ensures
        n == 0 <==> !valid_first_scalar(bytes@.subrange(i as int, bytes@.len() as int)),
        n != 0 ==> n == length_of_first_scalar(bytes@.subrange(i as int, bytes@.len() as int)),
        n <= bytes@.len() - i,
{
    let ghost s = bytes@.subrange(i as int, bytes@.len() as int);
    let rest: usize = bytes.len() - i;
    let b0: u8 = bytes[i];
    assert(s[0] == b0);
    if b0 <= 0x7f {
        return 1;
    }
    if 0xc0 <= b0 && b0 <= 0xdf {
        if rest < 2 {
            return 0;
        }
        let b1: u8 = bytes[i + 1];
        assert(s[1] == b1);
        if !(0x80 <= b1 && b1 <= 0xbf) {
            return 0;
        }
        let cp: u32 = (((b0 & 0x1f) as u32) << 6) | ((b1 & 0x3f) as u32);
        assert(cp == decode_first_codepoint(s));
        if 0x80 <= cp && !(0xd800 <= cp && cp <= 0xdfff) {
            return 2;
        }
        return 0;
    }
    if 0xe0 <= b0 && b0 <= 0xef {
        if rest < 3 {
            return 0;
        }
        let b1: u8 = bytes[i + 1];
        let b2: u8 = bytes[i + 2];
        assert(s[1] == b1 && s[2] == b2);
        if !(0x80 <= b1 && b1 <= 0xbf) || !(0x80 <= b2 && b2 <= 0xbf) {
            return 0;
        }
        let cp: u32 = (((b0 & 0x0f) as u32) << 12) | (((b1 & 0x3f) as u32) << 6) | ((b2
            & 0x3f) as u32);
        assert(cp == decode_first_codepoint(s));
        if 0x800 <= cp && !(0xd800 <= cp && cp <= 0xdfff) {
            return 3;
        }
        return 0;
    }
    if 0xf0 <= b0 && b0 <= 0xf7 {
        if rest < 4 {
            return 0;
        }
        let b1: u8 = bytes[i + 1];
        let b2: u8 = bytes[i + 2];
        let b3: u8 = bytes[i + 3];
        assert(s[1] == b1 && s[2] == b2 && s[3] == b3);
        if !(0x80 <= b1 && b1 <= 0xbf) || !(0x80 <= b2 && b2 <= 0xbf) || !(0x80 <= b3 && b3
            <= 0xbf) {
            return 0;
        }
        let cp: u32 = (((b0 & 0x07) as u32) << 18) | (((b1 & 0x3f) as u32) << 12) | (((b2
            & 0x3f) as u32) << 6) | ((b3 & 0x3f) as u32);
        assert(cp == decode_first_codepoint(s));
        if 0x10000 <= cp && cp <= 0x10ffff && !(0xd800 <= cp && cp <= 0xdfff) {
            return 4;
        }
        return 0;
    }
    0
}

/// Whether the bytes are well-formed UTF-8.
pub(crate) fn is_valid_utf8(bytes: &[u8]) -> (ok: bool)
    ensures
        ok == valid_utf8(bytes@),
{
    let mut i: usize = 0;
    while i < bytes.len()
        invariant
            partial_valid_utf8(bytes@, i as int),
        decreases bytes@.len() - i,
    {
        let n = first_scalar_len(bytes, i);
        if n == 0 {
            proof {
                partial_valid_partial_invalid_utf8(bytes@, i as int);
            }
            return false;
        }
        proof {
            partial_valid_utf8_extend(bytes@, i as int);
        }
        i = i + n;
    }
    assert(bytes@.subrange(0, bytes@.len() as int) =~= bytes@);
    true
}

/// Whether two string slices hold the same characters.
pub(crate) fn str_eq(a: &str, b: &str) -> (same: bool)
    ensures
        same == (a@ == b@),
{
    let x = a.as_bytes();
    let y = b.as_bytes();
    proof {
        broadcast use encode_utf8_decode_utf8;
        assert(decode_utf8(x@) == a@);
        assert(decode_utf8(y@) == b@);
    }
    if x.len() != y.len() {
        return false;
    }
    let mut i: usize = 0;
    while i < x.len()
        invariant
            x.len() == y.len(),
            0 <= i <= x.len(),
            x@ == encode_utf8(a@),
            y@ == encode_utf8(b@),
            forall|j: int| 0 <= j < i ==> x@[j] == y@[j],
        decreases x.len() - i,
    {
        if x[i] != y[i] {
            return false;
        }
        i = i + 1;
    }
    assert(x@ =~= y@);
    true
}

/// The UTF-8 encoding of a scalar other than zero holds no zero byte.
proof fn lemma_encode_scalar_nonzero(c: u32)
    requires
        is_scalar(c),
        c != 0,
    ensures
        forall|i: int| 0 <= i < encode_scalar(c).len() ==> encode_scalar(c)[i] != 0,
{
    assert((c & 0x7F) as u8 != 0 || !(1 <= c <= 0x7F)) by (bit_vector);
    assert(0xC0u8 | ((c >> 6) & 0x1F) as u8 != 0) by (bit_vector);
    assert(0xE0u8 | ((c >> 12) & 0x0F) as u8 != 0) by (bit_vector);
    assert(0xF0u8 | ((c >> 18) & 0x7) as u8 != 0) by (bit_vector);
    assert(0x80u8 | (c & 0x3F) as u8 != 0) by (bit_vector);
    assert(0x80u8 | ((c >> 6) & 0x3F) as u8 != 0) by (bit_vector);
    assert(0x80u8 | ((c >> 12) & 0x3F) as u8 != 0) by (bit_vector);
}

/// A text with no NUL character has no zero byte in its UTF-8 encoding.
pub proof fn lemma_utf8_of_text_without_nul(text: Seq<char>)
    requires
        forall|i: int| 0 <= i < text.len() ==> text[i] != '\0',
    ensures
        forall|i: int| 0 <= i < encode_utf8(text).len() ==> encode_utf8(text)[i] != 0,
    decreases text.len(),
{
    if text.len() > 0 {
        let c = text[0] as u32;
        char_is_scalar(text[0]);
        assert(c != 0) by {
            char_u32_cast(text[0], c);
        }
        lemma_encode_scalar_nonzero(c);
        lemma_utf8_of_text_without_nul(text.drop_first());
        let head = encode_scalar(c);
        let tail = encode_utf8(text.drop_first());
        assert(encode_utf8(text) == head + tail);
        assert forall|i: int| 0 <= i < encode_utf8(text).len() implies encode_utf8(text)[i] != 0 by {
            if i < head.len() {
                assert(encode_utf8(text)[i] == head[i]);
            } else {
                assert(encode_utf8(text)[i] == tail[i - head.len()]);
            }
        }
    }
}

} // verus!
