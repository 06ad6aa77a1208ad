//! Building text as UTF-8 bytes: literal pieces and decimal numbers.
use vstd::prelude::*;
use vstd::utf8::{encode_utf8, encode_scalar, decode_utf8};
use vstd::string::StringSliceAdditionalSpecFns;

verus! {

/// The ASCII digit for a value below ten.
pub open spec fn digit_byte(d: nat) -> u8 {
    (48 + d) as u8
}

/// The decimal digits of a natural number, most significant first, with no
/// leading zeros ("0" for zero).
pub open spec fn digits(n: nat) -> Seq<u8>
    decreases n,
{
    if n < 10 {
        seq![digit_byte(n)]
    } else {
        digits(n / 10) + seq![digit_byte(n % 10)]
    }
}

/// The decimal text of an integer, with a leading minus sign when it is negative.
pub open spec fn decimal(n: int) -> Seq<u8> {
    if n < 0 {
        seq![45u8] + digits((-n) as nat)
    } else {
        digits(n as nat)
    }
}

/// The UTF-8 bytes of a text.
pub open spec fn utf8(s: Seq<char>) -> Seq<u8> {
    encode_utf8(s)
}

/// Appends the decimal digits of `n`.
fn push_digits(out: &mut Vec<u8>, n: u64)
    ensures
        final(out)@ == old(out)@ + digits(n as nat),
    decreases n,
{
    if n >= 10 {
        push_digits(out, n / 10);
    }
    let d: u8 = (n % 10) as u8;
    out.push(48u8 + d);
    proof {
        if n >= 10 {
            assert(digits(n as nat) == digits((n / 10) as nat) + seq![digit_byte((n % 10) as nat)]);
        }
    }
}

/// Appends the decimal text of an unsigned number.
pub fn push_decimal_u64(out: &mut Vec<u8>, n: u64)
    ensures
        final(out)@ == old(out)@ + decimal(n as int),
{
    push_digits(out, n);
}

/// Appends the decimal text of a signed number.
pub fn push_decimal_i64(out: &mut Vec<u8>, n: i64)
    ensures
        final(out)@ == old(out)@ + decimal(n as int),
{
    if n < 0 {
        out.push(45u8);
        let m: u64 = ((-(n + 1)) as u64) + 1;
        push_digits(out, m);
        assert(old(out)@ + seq![45u8] + digits(m as nat) == old(out)@ + (seq![45u8] + digits(m as nat)));
    } else {
        push_digits(out, n as u64);
    }
}

/// Appends the UTF-8 bytes of a text.
pub fn push_str(out: &mut Vec<u8>, s: &str)
    ensures
        final(out)@ == old(out)@ + utf8(s@),
{
    let bytes = s.as_bytes();
    let ghost start = out@;
    let mut i: usize = 0;
    while i < bytes.len()
        invariant
            i <= bytes@.len(),
            bytes@ == s.spec_bytes(),
            out@ == start + bytes@.subrange(0, i as int),
        decreases bytes@.len() - i,
    {
        out.push(bytes[i]);
        assert(bytes@.subrange(0, i as int + 1) == bytes@.subrange(0, i as int).push(bytes@[i as int]));
        i = i + 1;
    }
    assert(bytes@.subrange(0, bytes@.len() as int) == bytes@);
}

/// Appends bytes.
pub fn push_bytes(out: &mut Vec<u8>, bytes: &[u8])
    ensures
        final(out)@ == old(out)@ + bytes@,
{
    let ghost start = out@;
    let mut i: usize = 0;
    while i < bytes.len()
        invariant
            i <= bytes@.len(),
            out@ == start + bytes@.subrange(0, i as int),
        decreases bytes@.len() - i,
    {
        out.push(bytes[i]);
        assert(bytes@.subrange(0, i as int + 1) == bytes@.subrange(0, i as int).push(bytes@[i as int]));
        i = i + 1;
    }
    assert(bytes@.subrange(0, bytes@.len() as int) == bytes@);
}

/// The UTF-8 encoding of two texts one after the other is the encoding of
/// the first followed by that of the second.
pub proof fn lemma_utf8_append(a: Seq<char>, b: Seq<char>)
    ensures
        utf8(a + b) == utf8(a) + utf8(b),
    decreases a.len(),
{
    if a.len() > 0 {
        assert((a + b).drop_first() == a.drop_first() + b);
        lemma_utf8_append(a.drop_first(), b);
        assert((a + b)[0] == a[0]);
    } else {
        assert(a + b == b);
    }
}

/// Text made from bytes known to be the UTF-8 encoding of a text.
pub fn text_from_utf8(bytes: Vec<u8>, Ghost(t): Ghost<Seq<char>>) -> (r: String)
    requires
        bytes@ == utf8(t),
    ensures
        r@ == t,
{
    proof {
        vstd::utf8::encode_utf8_valid_utf8(t);
    }
    match crate::map::string_from_utf8(bytes) {
        Some(s) => {
            proof {
                vstd::utf8::encode_utf8_decode_utf8(s@);
                vstd::utf8::encode_utf8_decode_utf8(t);
            }
            s
        },
        None => {
            proof {
                assert(false);
            }
            String::new()
        },
    }
}

/// Whether two texts are equal, compared byte by byte.
pub fn str_eq(a: &str, b: &str) -> (r: bool)
    ensures
        r == (a@ == b@),
{
    let x = a.as_bytes();
    let y = b.as_bytes();
    proof {
        vstd::utf8::encode_utf8_decode_utf8(a@);
        vstd::utf8::encode_utf8_decode_utf8(b@);
    }
    if x.len() != y.len() {
        return false;
    }
    let mut i: usize = 0;
    while i < x.len()
        invariant
            i <= x@.len(),
            x@.len() == y@.len(),
            x@ == a.spec_bytes(),
            y@ == b.spec_bytes(),
            forall|j: int| 0 <= j < i ==> x@[j] == y@[j],
        decreases x@.len() - i,
    {
        if x[i] != y[i] {
            return false;
        }
        i = i + 1;
    }
    assert(x@ == y@);
    true
}

/// The ASCII digit character for a value below ten.
pub open spec fn digit_char(d: nat) -> char {
    (48 + d) as char
}

/// The decimal digit characters of a natural number, most significant first.
pub open spec fn digits_text(n: nat) -> Seq<char>
    decreases n,
{
    if n < 10 {
        seq![digit_char(n)]
    } else {
        digits_text(n / 10) + seq![digit_char(n % 10)]
    }
}

/// The decimal text of an integer, with a leading minus sign when it is negative.
pub open spec fn decimal_text(n: int) -> Seq<char> {
    if n < 0 {
        seq!['-'] + digits_text((-n) as nat)
    } else {
        digits_text(n as nat)
    }
}

/// An ASCII character encodes to the one byte of its code.
pub proof fn lemma_ascii_utf8(c: char)
    requires
        (c as u32) <= 0x7F,
    ensures
        utf8(seq![c]) == seq![(c as u32) as u8],
{
    let v = c as u32;
    assert((v & 0x7Fu32) as u8 == v as u8) by (bit_vector)
        requires
            v <= 0x7F,
    ;
    let e = seq![c];
    assert(e.drop_first() == Seq::<char>::empty());
    assert(encode_utf8(e) == encode_scalar(e[0] as u32) + encode_utf8(e.drop_first()));
}

/// The digit characters of a number encode to its digit bytes.
pub proof fn lemma_digits_text_utf8(n: nat)
    ensures
        utf8(digits_text(n)) == digits(n),
    decreases n,
{
    let d = n % 10;
    assert(digit_char(d) as u32 == 48 + d);
    lemma_ascii_utf8(digit_char(d));
    if n < 10 {
        assert(d == n);
    } else {
        lemma_digits_text_utf8(n / 10);
        lemma_utf8_append(digits_text(n / 10), seq![digit_char(d)]);
    }
}

/// The decimal text of a number encodes to its decimal bytes.
pub proof fn lemma_decimal_text_utf8(n: int)
    ensures
        utf8(decimal_text(n)) == decimal(n),
{
    if n < 0 {
        lemma_digits_text_utf8((-n) as nat);
        assert(('-' as u32) == 45u32);
        lemma_ascii_utf8('-');
        lemma_utf8_append(seq!['-'], digits_text((-n) as nat));
    } else {
        lemma_digits_text_utf8(n as nat);
    }
}

/// Text under construction, kept as its UTF-8 bytes.
pub struct TextBuf {
    bytes: Vec<u8>,
}

impl View for TextBuf {
    type V = Seq<char>;

    closed spec fn view(&self) -> Seq<char> {
        decode_utf8(self.bytes@)
    }
}

impl TextBuf {
    /// The bytes are the encoding of the text.
    pub closed spec fn wf(&self) -> bool {
        self.bytes@ == utf8(decode_utf8(self.bytes@))
    }

    /// Empty text.
    pub fn new() -> (r: TextBuf)
        ensures
            r.wf(),
            r@ == Seq::<char>::empty(),
    {
        let r = TextBuf { bytes: Vec::new() };
        proof {
            vstd::utf8::encode_utf8_decode_utf8(Seq::<char>::empty());
            assert(utf8(Seq::<char>::empty()) == Seq::<u8>::empty());
        }
        r
    }

    /// Appends a text.
    pub fn push_str(&mut self, s: &str)
        requires
            old(self).wf(),
        ensures
            final(self).wf(),
            final(self)@ == old(self)@ + s@,
    {
        let ghost t = self@;
        push_str(&mut self.bytes, s);
        proof {
            lemma_utf8_append(t, s@);
            vstd::utf8::encode_utf8_decode_utf8(t + s@);
        }
    }

    /// Appends the decimal text of a number.
    pub fn push_i64(&mut self, n: i64)
        requires
            old(self).wf(),
        ensures
            final(self).wf(),
            final(self)@ == old(self)@ + decimal_text(n as int),
    {
        let ghost t = self@;
        push_decimal_i64(&mut self.bytes, n);
        proof {
            lemma_decimal_text_utf8(n as int);
            lemma_utf8_append(t, decimal_text(n as int));
            vstd::utf8::encode_utf8_decode_utf8(t + decimal_text(n as int));
        }
    }

    /// Appends the decimal text of an unsigned number.
    pub fn push_u64(&mut self, n: u64)
        requires
            old(self).wf(),
        ensures
            final(self).wf(),
            final(self)@ == old(self)@ + decimal_text(n as int),
    {
        let ghost t = self@;
        push_decimal_u64(&mut self.bytes, n);
        proof {
            lemma_decimal_text_utf8(n as int);
            lemma_utf8_append(t, decimal_text(n as int));
            vstd::utf8::encode_utf8_decode_utf8(t + decimal_text(n as int));
        }
    }

    /// The text built.
    pub fn into_string(self) -> (r: String)
        requires
            self.wf(),
        ensures
            r@ == self@,
    {
        text_from_utf8(self.bytes, Ghost(decode_utf8(self.bytes@)))
    }

    /// The bytes of the text built.
    pub fn into_bytes(self) -> (r: Vec<u8>)
        requires
            self.wf(),
        ensures
            r@ == utf8(self@),
    {
        self.bytes
    }
}

} // verus!

verus! {

/// The number that a text of decimal digits spells, most significant digit first.
pub open spec fn digits_value(s: Seq<char>) -> int
    decreases s.len(),
{
    if s.len() == 0 {
        0
    } else {
        digits_value(s.drop_last()) * 10 + (s.last() as int - 48)
    }
}

/// Whether a character is one of the ten decimal digits.
pub open spec fn is_digit(c: char) -> bool {
    '0' <= c && c <= '9'
}

/// The decimal text of a natural number is made of digits only, starts with
/// a digit other than zero unless the number is zero, and spells the number.
pub proof fn lemma_digits_text_spells(n: nat)
    ensures
        digits_text(n).len() >= 1,
        forall|i: int| 0 <= i < digits_text(n).len() ==> is_digit(#[trigger] digits_text(n)[i]),
        n > 0 ==> digits_text(n)[0] != '0',
        digits_value(digits_text(n)) == n,
    decreases n,
{
    let d = n % 10;
    assert(digit_char(d) as int == 48 + d);
    if n < 10 {
        assert(digits_text(n) =~= seq![digit_char(n)]);
        assert(seq![digit_char(n)].drop_last() =~= Seq::<char>::empty());
        assert(digits_value(Seq::<char>::empty()) == 0);
        assert(d == n);
    } else {
        lemma_digits_text_spells(n / 10);
        let s = digits_text(n / 10) + seq![digit_char(d)];
        assert(s.drop_last() =~= digits_text(n / 10));
        assert(s.last() == digit_char(d));
        assert(n == (n / 10) * 10 + d);
        assert(digits_value(s) == digits_value(digits_text(n / 10)) * 10 + d);
        assert(s[0] == digits_text(n / 10)[0]);
        assert forall|i: int| 0 <= i < s.len() implies is_digit(#[trigger] s[i]) by {
            if i < digits_text(n / 10).len() {
                assert(s[i] == digits_text(n / 10)[i]);
            }
        }
    }
}

/// The decimal text of an integer is its digits, after a minus sign when it
/// is negative: it spells the number's distance from zero.
pub proof fn lemma_decimal_text_spells(n: int)
    ensures
        n >= 0 ==> decimal_text(n) == digits_text(n as nat) && digits_value(decimal_text(n)) == n,
        n < 0 ==> decimal_text(n) == seq!['-'] + decimal_text(-n) && digits_value(decimal_text(-n))
            == -n,
{
    if n >= 0 {
        lemma_digits_text_spells(n as nat);
    } else {
        lemma_digits_text_spells((-n) as nat);
    }
}

} // verus!
