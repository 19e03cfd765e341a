//! Text assembly primitives shared by the error messages and the output
//! formatters: decimal rendering of unsigned integers, JSON string escaping,
//! and character-buffer to `String` conversion.

use vstd::prelude::*;
use vstd::string::*;

verus! {

// ---------------------------------------------------------------------------
// Decimal rendering
// ---------------------------------------------------------------------------

/// The character for one decimal digit.
pub open spec fn dec_digit(d: nat) -> char {
    if d == 0 {
        '0'
    } else if d == 1 {
        '1'
    } else if d == 2 {
        '2'
    } else if d == 3 {
        '3'
    } else if d == 4 {
        '4'
    } else if d == 5 {
        '5'
    } else if d == 6 {
        '6'
    } else if d == 7 {
        '7'
    } else if d == 8 {
        '8'
    } else {
        '9'
    }
}

/// Decimal text of a natural number, most significant digit first, no sign
/// and no leading zeroes (a single `'0'` for zero).
pub open spec fn dec_of(n: nat) -> Seq<char>
    decreases n,
{
    if n < 10 {
        seq![dec_digit(n)]
    } else {
        dec_of(n / 10).push(dec_digit(n % 10))
    }
}

fn digit_char(d: u64) -> (c: char)
    requires
        d < 10,
    ensures
        c == dec_digit(d as nat),
{
    if d == 0 {
        '0'
    } else if d == 1 {
        '1'
    } else if d == 2 {
        '2'
    } else if d == 3 {
        '3'
    } else if d == 4 {
        '4'
    } else if d == 5 {
        '5'
    } else if d == 6 {
        '6'
    } else if d == 7 {
        '7'
    } else if d == 8 {
        '8'
    } else {
        '9'
    }
}

/// Appends one decimal digit character to `out`.
pub fn push_dec_digit(out: &mut Vec<char>, d: u8)
    requires
        d < 10,
    ensures
        final(out)@ == old(out)@ + seq![dec_digit(d as nat)],
{
    let c = digit_char(d as u64);
    out.push(c);
    assert(final(out)@ =~= old(out)@ + seq![dec_digit(d as nat)]);
}

/// Appends the decimal text of `n` to `out`.
pub fn push_dec_u64(out: &mut Vec<char>, n: u64)
    ensures
        final(out)@ == old(out)@ + dec_of(n as nat),
    decreases n,
{
    if n >= 10 {
        push_dec_u64(out, n / 10);
        let c = digit_char(n % 10);
        out.push(c);
        assert(out@ =~= old(out)@ + dec_of(n as nat));
    } else {
        let c = digit_char(n);
        out.push(c);
        assert(out@ =~= old(out)@ + dec_of(n as nat));
    }
}

/// Appends the decimal text of `n` to `out`.
pub fn push_dec_u32(out: &mut Vec<char>, n: u32)
    ensures
        final(out)@ == old(out)@ + dec_of(n as nat),
{
    push_dec_u64(out, n as u64);
}

// ---------------------------------------------------------------------------
// JSON string escaping
// ---------------------------------------------------------------------------

/// The character for one lower-case hexadecimal digit.
pub open spec fn hex_digit(d: nat) -> char {
    if d < 10 {
        dec_digit(d)
    } else if d == 10 {
        'a'
    } else if d == 11 {
        'b'
    } else if d == 12 {
        'c'
    } else if d == 13 {
        'd'
    } else if d == 14 {
        'e'
    } else {
        'f'
    }
}

fn hex_char(d: u32) -> (c: char)
    requires
        d < 16,
    ensures
        c == hex_digit(d as nat),
{
    if d < 10 {
        digit_char(d as u64)
    } else if d == 10 {
        'a'
    } else if d == 11 {
        'b'
    } else if d == 12 {
        'c'
    } else if d == 13 {
        'd'
    } else if d == 14 {
        'e'
    } else {
        'f'
    }
}

/// The escape of one character inside a JSON string literal: quote and
/// backslash are escaped, the five short control escapes are used where they
/// exist, any other control character becomes `\u00xx`, and everything else
/// stands for itself.
pub open spec fn json_escape_char(c: char) -> Seq<char> {
    if c == '"' {
        seq!['\\', '"']
    } else if c == '\\' {
        seq!['\\', '\\']
    } else if c == '\u{8}' {
        seq!['\\', 'b']
    } else if c == '\u{c}' {
        seq!['\\', 'f']
    } else if c == '\n' {
        seq!['\\', 'n']
    } else if c == '\r' {
        seq!['\\', 'r']
    } else if c == '\t' {
        seq!['\\', 't']
    } else if (c as u32) < 0x20 {
        seq!['\\', 'u', '0', '0', hex_digit(((c as u32) / 16) as nat), hex_digit(
            ((c as u32) % 16) as nat,
        )]
    } else {
        seq![c]
    }
}

/// The body of a JSON string literal holding the characters of `s`.
pub open spec fn json_escape(s: Seq<char>) -> Seq<char>
    decreases s.len(),
{
    if s.len() == 0 {
        Seq::empty()
    } else {
        json_escape(s.drop_last()) + json_escape_char(s.last())
    }
}

proof fn lemma_json_escape_snoc(s: Seq<char>, i: int)
    requires
        0 <= i < s.len(),
    ensures
        json_escape(s.take(i + 1)) == json_escape(s.take(i)) + json_escape_char(s[i]),
{
    assert(s.take(i + 1).drop_last() =~= s.take(i));
    assert(s.take(i + 1).last() == s[i]);
}

fn push_escaped_char(out: &mut Vec<char>, c: char)
    ensures
        final(out)@ == old(out)@ + json_escape_char(c),
{
    let code: u32 = c as u32;
    if c == '"' {
        out.push('\\');
        out.push('"');
    } else if c == '\\' {
        out.push('\\');
        out.push('\\');
    } else if code == 0x8 {
        out.push('\\');
        out.push('b');
    } else if code == 0xc {
        out.push('\\');
        out.push('f');
    } else if c == '\n' {
        out.push('\\');
        out.push('n');
    } else if c == '\r' {
        out.push('\\');
        out.push('r');
    } else if c == '\t' {
        out.push('\\');
        out.push('t');
    } else if code < 0x20 {
        out.push('\\');
        out.push('u');
        out.push('0');
        out.push('0');
        let h = hex_char(code / 16);
        out.push(h);
        let l = hex_char(code % 16);
        out.push(l);
    } else {
        out.push(c);
    }
    assert(out@ =~= old(out)@ + json_escape_char(c));
}

/// Appends the JSON-escaped characters of `s` to `out` (without the
/// surrounding quotes).
pub fn push_json_escaped(out: &mut Vec<char>, s: &str)
    ensures
        final(out)@ == old(out)@ + json_escape(s@),
{
    let n = s.unicode_len();
    let mut i: usize = 0;
    while i < n
        invariant
            i <= n,
            n == s@.len(),
            out@ == old(out)@ + json_escape(s@.take(i as int)),
        decreases n - i,
    {
        let c = s.get_char(i);
        proof {
            lemma_json_escape_snoc(s@, i as int);
        }
        push_escaped_char(out, c);
        i += 1;
    }
    assert(s@.take(n as int) =~= s@);
}

// ---------------------------------------------------------------------------
// Appending plain text
// ---------------------------------------------------------------------------

/// Appends the characters of `s` to `out` unchanged.
pub fn push_chars(out: &mut Vec<char>, s: &str)
    ensures
        final(out)@ == old(out)@ + s@,
{
    let n = s.unicode_len();
    let mut i: usize = 0;
    while i < n
        invariant
            i <= n,
            n == s@.len(),
            out@ == old(out)@ + s@.take(i as int),
        decreases n - i,
    {
        let c = s.get_char(i);
        out.push(c);
        assert(out@ =~= old(out)@ + s@.take(i as int + 1));
        i += 1;
    }
    assert(s@.take(n as int) =~= s@);
}

// ---------------------------------------------------------------------------
// Character buffers and strings
// ---------------------------------------------------------------------------

/// Relies on `String::push`: appends exactly one character to the string.
#[verifier::external_body]
fn push_char(s: &mut String, c: char)
    ensures
        final(s)@ == old(s)@.push(c),
{
    s.push(c);
}

/// Builds the `String` holding exactly the characters of `v`.
pub fn chars_to_string(v: &Vec<char>) -> (r: String)
    ensures
        r@ == v@,
{
    let mut s = String::new();
    let mut i: usize = 0;
    while i < v.len()
        invariant
            i <= v@.len(),
            s@ == v@.take(i as int),
        decreases v@.len() - i,
    {
        let c = v[i];
        push_char(&mut s, c);
        assert(s@ =~= v@.take(i as int + 1));
        i += 1;
    }
    assert(v@.take(v@.len() as int) =~= v@);
    s
}

/// Whether two string slices hold the same characters.
pub fn str_eq(a: &str, b: &str) -> (r: bool)
    ensures
        r == (a@ == b@),
{
    let n = a.unicode_len();
    if n != b.unicode_len() {
        assert(a@.len() != b@.len());
        return false;
    }
    let mut i: usize = 0;
    while i < n
        invariant
            i <= n,
            n == a@.len(),
            n == b@.len(),
            forall|j: int| 0 <= j < i ==> a@[j] == b@[j],
        decreases n - i,
    {
        if a.get_char(i) != b.get_char(i) {
            assert(a@[i as int] != b@[i as int]);
            return false;
        }
        i += 1;
    }
    assert(a@ =~= b@);
    true
}

// ---------------------------------------------------------------------------
// Hexadecimal-float rendering
// ---------------------------------------------------------------------------
//
// A floating-point literal is carried as its IEEE-754 bit pattern and
// rendered in hexadecimal-significand notation ("0x1.8p1" for three), which
// is exact, deterministic, and computed with integer arithmetic alone.

/// `width` hexadecimal digits of `v`, most significant first.
pub open spec fn hex_frac(v: u64, width: nat) -> Seq<char>
    decreases width,
{
    if width == 0 {
        Seq::empty()
    } else {
        hex_frac(v / 16, (width - 1) as nat).push(hex_digit((v % 16) as nat))
    }
}

/// The fraction digits with trailing zero digits dropped (at least one digit
/// stays).
pub open spec fn trim_frac(v: u64, width: nat) -> (u64, nat)
    decreases width,
{
    if width > 1 && v % 16 == 0 {
        trim_frac(v / 16, (width - 1) as nat)
    } else {
        (v, width)
    }
}

fn push_hex_frac(out: &mut Vec<char>, v: u64, width: u64)
    requires
        width <= 16,
    ensures
        final(out)@ == old(out)@ + hex_frac(v, width as nat),
    decreases width,
{
    if width > 0 {
        push_hex_frac(out, v / 16, width - 1);
        let c = hex_char((v % 16) as u32);
        out.push(c);
        assert(out@ =~= old(out)@ + hex_frac(v, width as nat));
    } else {
        assert(out@ =~= old(out)@ + hex_frac(v, width as nat));
    }
}

fn push_trimmed_frac(out: &mut Vec<char>, v: u64, width: u64)
    requires
        1 <= width <= 16,
    ensures
        final(out)@ == old(out)@ + hex_frac(trim_frac(v, width as nat).0, trim_frac(v, width as nat).1),
    decreases width,
{
    if width > 1 && v % 16 == 0 {
        push_trimmed_frac(out, v / 16, width - 1);
    } else {
        push_hex_frac(out, v, width);
    }
}

/// The signed decimal exponent suffix.
pub open spec fn exp_text(e: int) -> Seq<char> {
    if e < 0 {
        seq!['-'] + dec_of((0 - e) as nat)
    } else {
        dec_of(e as nat)
    }
}

/// The significand digits of a fraction field: a leading point and the
/// trimmed fraction digits, or nothing when the fraction is zero.
pub open spec fn frac_text(frac: u64, width: nat) -> Seq<char> {
    if frac == 0 {
        Seq::empty()
    } else {
        seq!['.'] + hex_frac(trim_frac(frac, width).0, trim_frac(frac, width).1)
    }
}

/// The hexadecimal-significand text of a double-precision bit pattern.
pub open spec fn hexfloat64(bits: u64) -> Seq<char> {
    let sign: u64 = bits / 0x8000_0000_0000_0000;
    let expf: u64 = (bits / 0x10_0000_0000_0000) % 0x800;
    let frac: u64 = bits % 0x10_0000_0000_0000;
    let sign_text: Seq<char> = if sign == 1 {
        seq!['-']
    } else {
        Seq::empty()
    };
    if expf == 0x7ff {
        if frac == 0 {
            sign_text + "inf"@
        } else {
            "nan"@
        }
    } else if expf == 0 && frac == 0 {
        sign_text + "0x0p0"@
    } else if expf == 0 {
        sign_text + "0x0"@ + frac_text(frac, 13) + "p-1022"@
    } else {
        sign_text + "0x1"@ + frac_text(frac, 13) + "p"@ + exp_text(expf - 1023)
    }
}

/// The hexadecimal-significand text of a single-precision bit pattern. The
/// 23 fraction bits are shifted up one bit to fill six hexadecimal digits.
pub open spec fn hexfloat32(bits: u32) -> Seq<char> {
    let sign: u32 = bits / 0x8000_0000;
    let expf: u32 = (bits / 0x80_0000) % 0x100;
    let frac: u64 = (((bits % 0x80_0000) as u64) * 2) as u64;
    let sign_text: Seq<char> = if sign == 1 {
        seq!['-']
    } else {
        Seq::empty()
    };
    if expf == 0xff {
        if frac == 0 {
            sign_text + "inf"@
        } else {
            "nan"@
        }
    } else if expf == 0 && frac == 0 {
        sign_text + "0x0p0"@
    } else if expf == 0 {
        sign_text + "0x0"@ + frac_text(frac, 6) + "p-126"@
    } else {
        sign_text + "0x1"@ + frac_text(frac, 6) + "p"@ + exp_text(expf - 127)
    }
}

fn push_exp_text(out: &mut Vec<char>, e: i64)
    requires
        -1100 <= e <= 1100,
    ensures
        final(out)@ == old(out)@ + exp_text(e as int),
{
    if e < 0 {
        out.push('-');
        push_dec_u64(out, (0 - e) as u64);
        assert(final(out)@ =~= old(out)@ + exp_text(e as int));
    } else {
        push_dec_u64(out, e as u64);
    }
}

fn push_frac_text(out: &mut Vec<char>, frac: u64, width: u64)
    requires
        1 <= width <= 16,
    ensures
        final(out)@ == old(out)@ + frac_text(frac, width as nat),
{
    if frac != 0 {
        out.push('.');
        push_trimmed_frac(out, frac, width);
        assert(final(out)@ =~= old(out)@ + frac_text(frac, width as nat));
    }
}

/// Appends the hexadecimal-significand text of a double-precision pattern.
pub fn push_hexfloat64(out: &mut Vec<char>, bits: u64)
    ensures
        final(out)@ == old(out)@ + hexfloat64(bits),
{
    let sign: u64 = bits / 0x8000_0000_0000_0000;
    let expf: u64 = (bits / 0x10_0000_0000_0000) % 0x800;
    let frac: u64 = bits % 0x10_0000_0000_0000;
    if expf == 0x7ff {
        if frac == 0 {
            if sign == 1 {
                out.push('-');
            }
            push_chars(out, "inf");
        } else {
            push_chars(out, "nan");
        }
    } else if expf == 0 && frac == 0 {
        if sign == 1 {
            out.push('-');
        }
        push_chars(out, "0x0p0");
    } else if expf == 0 {
        if sign == 1 {
            out.push('-');
        }
        push_chars(out, "0x0");
        push_frac_text(out, frac, 13);
        push_chars(out, "p-1022");
    } else {
        if sign == 1 {
            out.push('-');
        }
        push_chars(out, "0x1");
        push_frac_text(out, frac, 13);
        push_chars(out, "p");
        push_exp_text(out, (expf as i64) - 1023);
    }
    assert(final(out)@ =~= old(out)@ + hexfloat64(bits));
}

/// Appends the hexadecimal-significand text of a single-precision pattern.
pub fn push_hexfloat32(out: &mut Vec<char>, bits: u32)
    ensures
        final(out)@ == old(out)@ + hexfloat32(bits),
{
    let sign: u32 = bits / 0x8000_0000;
    let expf: u32 = (bits / 0x80_0000) % 0x100;
    let frac: u64 = (bits % 0x80_0000) as u64 * 2;
    if expf == 0xff {
        if frac == 0 {
            if sign == 1 {
                out.push('-');
            }
            push_chars(out, "inf");
        } else {
            push_chars(out, "nan");
        }
    } else if expf == 0 && frac == 0 {
        if sign == 1 {
            out.push('-');
        }
        push_chars(out, "0x0p0");
    } else if expf == 0 {
        if sign == 1 {
            out.push('-');
        }
        push_chars(out, "0x0");
        push_frac_text(out, frac, 6);
        push_chars(out, "p-126");
    } else {
        if sign == 1 {
            out.push('-');
        }
        push_chars(out, "0x1");
        push_frac_text(out, frac, 6);
        push_chars(out, "p");
        push_exp_text(out, (expf as i64) - 127);
    }
    assert(final(out)@ =~= old(out)@ + hexfloat32(bits));
}

} // verus!
