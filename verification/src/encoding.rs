use vstd::prelude::*;

verus! {

// ---------------------------------------------------------------------------
// Password sanitization: every character outside the 7-bit range 0x00..=0x7F
// is replaced by a literal '.' before the password enters the digest.
// ---------------------------------------------------------------------------

/// True iff `c` lies in the 7-bit range 0x00..=0x7F that the solver keeps.
pub open spec fn is_seven_bit(c: char) -> bool {
    c as u32 <= 0x7F
}

/// One password character after sanitization.
pub open spec fn sanitize_char(c: char) -> char {
    if is_seven_bit(c) {
        c
    } else {
        '.'
    }
}

/// The password with every character outside 0x00..=0x7F replaced by '.'.
pub open spec fn sanitize(s: Seq<char>) -> Seq<char> {
    s.map_values(|c: char| sanitize_char(c))
}

// ---------------------------------------------------------------------------
// UTF-16 little-endian encoding, two bytes per code unit, no byte-order mark.
// ---------------------------------------------------------------------------

/// The little-endian bytes of the UTF-16 code units of one character.
pub open spec fn utf16le_char(c: char) -> Seq<u8> {
    let v = c as u32;
    if v < 0x10000 {
        seq![(v % 0x100) as u8, (v / 0x100) as u8]
    } else {
        let w = v - 0x10000;
        let hi = 0xD800 + w / 0x400;
        let lo = 0xDC00 + w % 0x400;
        seq![(hi % 0x100) as u8, (hi / 0x100) as u8, (lo % 0x100) as u8, (lo / 0x100) as u8]
    }
}

/// The UTF-16 little-endian encoding of a character sequence.
pub open spec fn utf16le(s: Seq<char>) -> Seq<u8>
    decreases s.len(),
{
    if s.len() == 0 {
        Seq::empty()
    } else {
        utf16le(s.drop_last()) + utf16le_char(s.last())
    }
}

/// Appends the UTF-16 little-endian bytes of `c` to `out`.
fn push_utf16le_char(out: &mut Vec<u8>, c: char)
    ensures
        final(out)@ == old(out)@ + utf16le_char(c),
{
    let v: u32 = c as u32;
    if v < 0x10000 {
        out.push((v % 0x100) as u8);
        out.push((v / 0x100) as u8);
    } else {
        let w: u32 = v - 0x10000;
        let hi: u32 = 0xD800 + w / 0x400;
        let lo: u32 = 0xDC00 + w % 0x400;
        out.push((hi % 0x100) as u8);
        out.push((hi / 0x100) as u8);
        out.push((lo % 0x100) as u8);
        out.push((lo / 0x100) as u8);
    }
    proof {
        assert(out@ =~= old(out)@ + utf16le_char(c));
    }
}

/// Encodes `challenge ++ "-" ++ sanitize(password)` as UTF-16 little-endian
/// bytes in one pass, sanitizing the password characters on the fly.
#[verifier::loop_isolation(false)]
pub fn utf16le_auth_input(challenge: &str, password: &str) -> (r: Vec<u8>)
    ensures
        r@ == utf16le(challenge@ + seq!['-'] + sanitize(password@)),
{
    let clen: usize = challenge.unicode_len();
    let plen: usize = password.unicode_len();
    let mut out: Vec<u8> = Vec::new();
    let mut i: usize = 0;
    while i < clen
        invariant
            i <= clen,
            out@ == utf16le(challenge@.take(i as int)),
        decreases clen - i,
    {
        let c = challenge.get_char(i);
        push_utf16le_char(&mut out, c);
        proof {
            assert(challenge@.take(i + 1 as int).drop_last() =~= challenge@.take(i as int));
            assert(challenge@.take(i + 1 as int).last() == challenge@[i as int]);
        }
        i += 1;
    }
    proof {
        assert(challenge@.take(clen as int) =~= challenge@);
    }
    push_utf16le_char(&mut out, '-');
    let ghost prefix = challenge@ + seq!['-'];
    proof {
        assert(prefix.drop_last() =~= challenge@);
        assert(prefix.last() == '-');
        assert(prefix + sanitize(password@.take(0)) =~= prefix);
    }
    let mut j: usize = 0;
    while j < plen
        invariant
            j <= plen,
            out@ == utf16le(prefix + sanitize(password@.take(j as int))),
        decreases plen - j,
    {
        let c = password.get_char(j);
        let sc: char = if (c as u32) <= 0x7F {
            c
        } else {
            '.'
        };
        push_utf16le_char(&mut out, sc);
        proof {
            assert(sc == sanitize_char(password@[j as int]));
            let x = prefix + sanitize(password@.take(j as int));
            let y = prefix + sanitize(password@.take(j + 1 as int));
            assert(y.drop_last() =~= x);
            assert(y.last() == sc);
        }
        j += 1;
    }
    proof {
        assert(password@.take(plen as int) =~= password@);
    }
    out
}

// ---------------------------------------------------------------------------
// Lowercase hexadecimal rendering of a byte sequence, two digits per byte.
// ---------------------------------------------------------------------------

/// The lowercase hexadecimal digit for a value in 0..16.
pub open spec fn hex_digit(n: int) -> char {
    if n == 0 {
        '0'
    } else if n == 1 {
        '1'
    } else if n == 2 {
        '2'
    } else if n == 3 {
        '3'
    } else if n == 4 {
        '4'
    } else if n == 5 {
        '5'
    } else if n == 6 {
        '6'
    } else if n == 7 {
        '7'
    } else if n == 8 {
        '8'
    } else if n == 9 {
        '9'
    } else if n == 10 {
        'a'
    } else if n == 11 {
        'b'
    } else if n == 12 {
        'c'
    } else if n == 13 {
        'd'
    } else if n == 14 {
        'e'
    } else {
        'f'
    }
}

/// The lowercase hexadecimal rendering of a byte sequence, high nibble first.
pub open spec fn hex(bytes: Seq<u8>) -> Seq<char>
    decreases bytes.len(),
{
    if bytes.len() == 0 {
        Seq::empty()
    } else {
        hex(bytes.drop_last()) + seq![
            hex_digit(bytes.last() as int / 16),
            hex_digit(bytes.last() as int % 16),
        ]
    }
}

/// True iff `c` belongs to the lowercase hexadecimal alphabet 0-9, a-f.
pub open spec fn is_hex_digit_char(c: char) -> bool {
    (0x30 <= c as u32 && c as u32 <= 0x39) || (0x61 <= c as u32 && c as u32 <= 0x66)
}

/// A hexadecimal rendering is two digits per byte, each from the lowercase
/// hexadecimal alphabet.
pub proof fn lemma_hex_shape(bytes: Seq<u8>)
    ensures
        hex(bytes).len() == 2 * bytes.len(),
        forall|i: int| 0 <= i < hex(bytes).len() ==> is_hex_digit_char(#[trigger] hex(bytes)[i]),
    decreases bytes.len(),
{
    if bytes.len() > 0 {
        lemma_hex_shape(bytes.drop_last());
        assert forall|i: int| 0 <= i < hex(bytes).len() implies is_hex_digit_char(
            hex(bytes)[i],
        ) by {
            if i < hex(bytes.drop_last()).len() {
                assert(hex(bytes)[i] == hex(bytes.drop_last())[i]);
            } else if i == hex(bytes.drop_last()).len() {
                assert(hex(bytes)[i] == hex_digit(bytes.last() as int / 16));
            } else {
                assert(hex(bytes)[i] == hex_digit(bytes.last() as int % 16));
            }
        }
    }
}

/// A one-character string holding the lowercase hexadecimal digit for `n`.
fn hex_digit_str(n: u8) -> (r: &'static str)
    requires
        n < 16,
    ensures
        r@.len() == 1,
        r@[0] == hex_digit(n as int),
{
    let digits = "0123456789abcdef";
    proof {
        reveal_strlit("0123456789abcdef");
        assert(digits.is_ascii());
    }
    digits.substring_ascii(n as usize, n as usize + 1)
}

/// Renders `bytes` as lowercase hexadecimal, two digits per byte.
pub fn hex_of_bytes(bytes: &Vec<u8>) -> (r: String)
    ensures
        r@ == hex(bytes@),
{
    let mut out = String::new();
    let mut i: usize = 0;
    while i < bytes.len()
        invariant
            i <= bytes@.len(),
            out@ == hex(bytes@.take(i as int)),
        decreases bytes@.len() - i,
    {
        let b = bytes[i];
        out.append(hex_digit_str(b / 16));
        out.append(hex_digit_str(b % 16));
        proof {
            assert(bytes@.take(i + 1 as int).drop_last() =~= bytes@.take(i as int));
            assert(bytes@.take(i + 1 as int).last() == bytes@[i as int]);
            assert(out@ =~= hex(bytes@.take(i + 1 as int)));
        }
        i += 1;
    }
    proof {
        assert(bytes@.take(bytes@.len() as int) =~= bytes@);
    }
    out
}

// ---------------------------------------------------------------------------
// Decimal integer parsing for the deci-unit telemetry strings.
// ---------------------------------------------------------------------------

/// True iff `c` is a decimal digit.
pub open spec fn is_dec_digit(c: char) -> bool {
    0x30 <= c as u32 <= 0x39
}

/// The numeric value of a decimal digit character.
pub open spec fn digit_val(c: char) -> int {
    c as u32 - 0x30
}

/// True iff every character of `s` is a decimal digit.
pub open spec fn all_dec_digits(s: Seq<char>) -> bool {
    forall|i: int| 0 <= i < s.len() ==> is_dec_digit(s[i])
}

/// The value of a sequence of decimal digit characters, most significant
/// digit first.
pub open spec fn digits_val(s: Seq<char>) -> int
    decreases s.len(),
{
    if s.len() == 0 {
        0
    } else {
        digits_val(s.drop_last()) * 10 + digit_val(s.last())
    }
}

/// The value a telemetry string denotes: an optional minus sign followed by
/// decimal digits. Anything else, and any magnitude beyond what an `i64`
/// holds, denotes zero.
pub open spec fn parse_decimal(s: Seq<char>) -> int {
    if s.len() >= 1 && s[0] == '-' {
        if s.len() >= 2 && all_dec_digits(s.skip(1)) && digits_val(s.skip(1)) <= 0x7fff_ffff_ffff_ffff {
            -digits_val(s.skip(1))
        } else {
            0
        }
    } else {
        if s.len() >= 1 && all_dec_digits(s) && digits_val(s) <= 0x7fff_ffff_ffff_ffff {
            digits_val(s)
        } else {
            0
        }
    }
}

/// A digit string is worth at least zero.
proof fn lemma_digits_val_nonneg(s: Seq<char>)
    requires
        all_dec_digits(s),
    ensures
        digits_val(s) >= 0,
    decreases s.len(),
{
    if s.len() > 0 {
        assert(all_dec_digits(s.drop_last()));
        lemma_digits_val_nonneg(s.drop_last());
        assert(digits_val(s.drop_last()) * 10 >= 0) by (nonlinear_arith)
            requires
                digits_val(s.drop_last()) >= 0,
        ;
    }
}

/// Extending a digit string can only keep or grow its value.
proof fn lemma_digits_val_prefix_le(s: Seq<char>, n: int)
    requires
        all_dec_digits(s),
        0 <= n <= s.len(),
    ensures
        digits_val(s.take(n)) <= digits_val(s),
    decreases s.len() - n,
{
    if n < s.len() {
        lemma_digits_val_prefix_le(s, n + 1);
        let t = s.take(n + 1);
        assert(t.drop_last() =~= s.take(n));
        assert(all_dec_digits(s.take(n)));
        lemma_digits_val_nonneg(s.take(n));
        assert(digits_val(s.take(n)) * 10 >= digits_val(s.take(n))) by (nonlinear_arith)
            requires
                digits_val(s.take(n)) >= 0,
        ;
        assert(digits_val(t) >= digits_val(s.take(n)));
    } else {
        assert(s.take(n) =~= s);
    }
}

/// The bounds every parsed telemetry value respects.
pub proof fn lemma_parse_decimal_bounds(s: Seq<char>)
    ensures
        -0x7fff_ffff_ffff_ffff <= parse_decimal(s) <= 0x7fff_ffff_ffff_ffff,
{
    if s.len() >= 1 && s[0] == '-' {
        if s.len() >= 2 && all_dec_digits(s.skip(1)) && digits_val(s.skip(1))
            <= 0x7fff_ffff_ffff_ffff {
            lemma_digits_val_nonneg(s.skip(1));
        }
    } else {
        if s.len() >= 1 && all_dec_digits(s) && digits_val(s) <= 0x7fff_ffff_ffff_ffff {
            lemma_digits_val_nonneg(s);
        }
    }
}

/// Parses a telemetry string: an optional minus sign followed by decimal
/// digits. Returns zero for anything else, and for any magnitude that does
/// not fit an `i64`.
#[verifier::loop_isolation(false)]
pub fn parse_decimal_or_zero(s: &str) -> (r: i64)
    ensures
        r as int == parse_decimal(s@),
{
    let len: usize = s.unicode_len();
    if len == 0 {
        return 0;
    }
    let neg: bool = s.get_char(0) == '-';
    let start: usize = if neg {
        1
    } else {
        0
    };
    if len == start {
        return 0;
    }
    let ghost digits = s@.skip(start as int);
    proof {
        if !neg {
            assert(s@.skip(0) =~= s@);
        }
    }
    // First pass: every remaining character must be a decimal digit.
    let mut i: usize = start;
    while i < len
        invariant
            len == s@.len(),
            start <= i <= len,
            start <= 1,
            digits == s@.skip(start as int),
            forall|j: int| 0 <= j < i - start ==> is_dec_digit(digits[j]),
        decreases len - i,
    {
        let v: u32 = s.get_char(i) as u32;
        if v < 0x30 || v > 0x39 {
            proof {
                assert(digits[i - start] == s@[i as int]);
                assert(!all_dec_digits(digits)) by {
                    assert(!is_dec_digit(digits[i - start]));
                }
            }
            return 0;
        }
        assert(is_dec_digit(digits[i - start]));
        i += 1;
    }
    assert(all_dec_digits(digits));
    // Second pass: accumulate the value, bailing out when it leaves i64 range.
    let mut acc: u64 = 0;
    let mut i: usize = start;
    while i < len
        invariant
            len == s@.len(),
            start <= i <= len,
            start <= 1,
            digits == s@.skip(start as int),
            all_dec_digits(digits),
            acc as int == digits_val(digits.take(i - start)),
            acc <= 0x7fff_ffff_ffff_ffff,
        decreases len - i,
    {
        let v: u32 = s.get_char(i) as u32;
        assert(is_dec_digit(digits[i - start]));
        assert(v == digits[i - start] as u32);
        let d: u64 = (v - 0x30) as u64;
        if acc > (0x7fff_ffff_ffff_ffffu64 - d) / 10 {
            proof {
                let k = i - start + 1;
                assert(digits.take(k).drop_last() =~= digits.take(k - 1));
                assert(all_dec_digits(digits.take(k)));
                lemma_digits_val_nonneg(digits.take(k - 1));
                assert(acc as int * 10 + d as int > 0x7fff_ffff_ffff_ffff) by (nonlinear_arith)
                    requires
                        acc as int > (0x7fff_ffff_ffff_ffff - d as int) / 10,
                        acc as int >= 0,
                        0 <= d as int <= 9,
                ;
                assert(digits_val(digits.take(k)) > 0x7fff_ffff_ffff_ffff);
                lemma_digits_val_prefix_le(digits, k);
                assert(digits_val(digits) > 0x7fff_ffff_ffff_ffff);
            }
            return 0;
        }
        proof {
            assert(acc as int * 10 + d as int <= 0x7fff_ffff_ffff_ffff) by (nonlinear_arith)
                requires
                    acc as int <= (0x7fff_ffff_ffff_ffff - d as int) / 10,
                    acc as int >= 0,
                    0 <= d as int <= 9,
            ;
            let k = i - start + 1;
            assert(digits.take(k).drop_last() =~= digits.take(k - 1));
        }
        acc = acc * 10 + d;
        i += 1;
    }
    proof {
        assert(digits.take(len - start) =~= digits);
    }
    if neg {
        proof {
            lemma_digits_val_nonneg(digits);
        }
        -(acc as i64)
    } else {
        acc as i64
    }
}

// ---------------------------------------------------------------------------
// Character-wise prefix test.
// ---------------------------------------------------------------------------

/// True iff `p` is a prefix of `s`.
pub open spec fn has_prefix(s: Seq<char>, p: Seq<char>) -> bool {
    p.len() <= s.len() && s.take(p.len() as int) == p
}

/// Tests whether `p` is a prefix of `s`, character by character.
pub fn starts_with_prefix(s: &str, p: &str) -> (r: bool)
    ensures
        r == has_prefix(s@, p@),
{
    let sl: usize = s.unicode_len();
    let pl: usize = p.unicode_len();
    if pl > sl {
        return false;
    }
    let mut i: usize = 0;
    while i < pl
        invariant
            sl == s@.len(),
            pl == p@.len(),
            pl <= sl,
            i <= pl,
            forall|j: int| 0 <= j < i ==> s@[j] == p@[j],
        decreases pl - i,
    {
        if s.get_char(i) != p.get_char(i) {
            assert(s@.take(pl as int)[i as int] != p@[i as int]);
            return false;
        }
        i += 1;
    }
    proof {
        assert(s@.take(pl as int) =~= p@);
    }
    true
}

} // verus!
