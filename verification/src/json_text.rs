//! Character-level JSON text primitives for the state document.
//!
//! The persisted state is a JSON document.  This module gives the document
//! codec its building blocks: decimal numbers, string escaping, literal
//! token matching — each with a specification-level encoder and parser and
//! round-trip lemmas proving that parsing an encoded value yields the value
//! back with the rest of the input untouched.

use vstd::prelude::*;
use vstd::string::*;

verus! {

/// Appends one character to a string.
///
/// Relies on `String::push`: the character is appended at the end.
#[verifier::external_body]
fn push_char(out: &mut String, c: char)
    ensures
        final(out)@ == old(out)@.push(c),
{
    out.push(c);
}

/// Dropping `a` characters and then `b` more is dropping `a + b`.
pub proof fn lemma_skip_add(t: Seq<char>, a: int, b: int)
    requires
        0 <= a,
        0 <= b,
        a + b <= t.len(),
    ensures
        t.skip(a).skip(b) =~= t.skip(a + b),
{
}

// ---------------------------------------------------------------------------
// Decimal numbers
// ---------------------------------------------------------------------------

/// Whether `c` is an ASCII decimal digit.
pub open spec fn is_digit(c: char) -> bool {
    48 <= (c as u32) && (c as u32) <= 57
}

/// Numeric value of an ASCII decimal digit.
pub open spec fn digit_val(c: char) -> nat {
    ((c as u32) - 48) as nat
}

/// The ASCII digit character for a value below ten.
pub open spec fn digit_char(d: nat) -> char
    recommends
        d < 10,
{
    if d == 0 {
        '0'
    } else if d == 1 {
        '1'
    } else if d == 2 {
        '2'
    } else if d == 3 {
        '3'
    } else if d == 4 {
        '4'
    } else if d == 5 {
        '5'
    } else if d == 6 {
        '6'
    } else if d == 7 {
        '7'
    } else if d == 8 {
        '8'
    } else {
        '9'
    }
}

/// The decimal digit string of `n`, most significant digit first.
pub open spec fn dec_digits(n: nat) -> Seq<char>
    decreases n,
{
    if n < 10 {
        seq![digit_char(n)]
    } else {
        dec_digits(n / 10) + seq![digit_char(n % 10)]
    }
}

/// Ten to the `k`.
pub open spec fn pow10(k: nat) -> nat
    decreases k,
{
    if k == 0 {
        1
    } else {
        10 * pow10((k - 1) as nat)
    }
}

/// Consume leading digits of `t`, folding them onto `acc`; returns the
/// accumulated value and the unconsumed rest.
pub open spec fn parse_digits(t: Seq<char>, acc: nat) -> (nat, Seq<char>)
    decreases t.len(),
{
    if t.len() > 0 && is_digit(t[0]) {
        parse_digits(t.skip(1), acc * 10 + digit_val(t[0]))
    } else {
        (acc, t)
    }
}

/// Parse a `u64` written in decimal at the head of `t`: at least one
/// digit, and the value must fit.
pub open spec fn spec_parse_u64(t: Seq<char>) -> Option<(u64, Seq<char>)> {
    if t.len() > 0 && is_digit(t[0]) {
        let (v, rest) = parse_digits(t, 0);
        if v <= u64::MAX {
            Some((v as u64, rest))
        } else {
            None
        }
    } else {
        None
    }
}

/// A digit character round-trips through its value.
pub proof fn lemma_digit_char_val(d: nat)
    requires
        d < 10,
    ensures
        is_digit(digit_char(d)),
        digit_val(digit_char(d)) == d,
{
}

/// A decimal digit string is non-empty and starts with a digit.
pub proof fn lemma_dec_digits_head(n: nat)
    ensures
        dec_digits(n).len() >= 1,
        is_digit(dec_digits(n)[0]),
    decreases n,
{
    if n < 10 {
        lemma_digit_char_val(n);
    } else {
        lemma_dec_digits_head(n / 10);
    }
}

/// Folding the digits of `n` onto `acc` multiplies `acc` by the right
/// power of ten and adds `n`; the rest of the input is untouched.
pub proof fn lemma_parse_digits_of_dec(n: nat, acc: nat, rest: Seq<char>)
    ensures
        parse_digits(dec_digits(n) + rest, acc) == parse_digits(
            rest,
            acc * pow10(dec_digits(n).len()) + n,
        ),
    decreases n,
{
    if n < 10 {
        lemma_digit_char_val(n);
        assert((dec_digits(n) + rest).skip(1) =~= rest);
        assert(parse_digits(dec_digits(n) + rest, acc) == parse_digits(rest, acc * 10 + n));
        assert(pow10(0) == 1);
        assert(pow10(1) == 10);
    } else {
        let high = dec_digits(n / 10);
        let d = digit_char(n % 10);
        lemma_digit_char_val(n % 10);
        assert(dec_digits(n) + rest =~= high + (seq![d] + rest));
        lemma_parse_digits_of_dec(n / 10, acc, seq![d] + rest);
        let mid = acc * pow10(high.len()) + n / 10;
        assert((seq![d] + rest).skip(1) =~= rest);
        assert(parse_digits(seq![d] + rest, mid) == parse_digits(rest, mid * 10 + n % 10));
        assert(dec_digits(n).len() == high.len() + 1);
        assert(pow10(high.len() + 1) == 10 * pow10(high.len()));
        assert(mid * 10 + n % 10 == acc * (10 * pow10(high.len())) + n) by (nonlinear_arith)
            requires
                mid == acc * pow10(high.len()) + n / 10,
                n / 10 * 10 + n % 10 == n,
        {
        }
    }
}

/// Parsing the decimal digits of `n`, followed by anything that does not
/// begin with a digit, yields exactly `n` and that rest.
pub proof fn lemma_parse_u64_of_dec(n: u64, rest: Seq<char>)
    requires
        rest.len() > 0 ==> !is_digit(rest[0]),
    ensures
        spec_parse_u64(dec_digits(n as nat) + rest) == Some((n, rest)),
{
    lemma_dec_digits_head(n as nat);
    let t = dec_digits(n as nat) + rest;
    assert(t[0] == dec_digits(n as nat)[0]);
    lemma_parse_digits_of_dec(n as nat, 0, rest);
    assert(parse_digits(rest, 0 * pow10(dec_digits(n as nat).len()) + n as nat) == parse_digits(
        rest,
        n as nat,
    ));
    assert(parse_digits(rest, n as nat) == (n as nat, rest));
}

/// The value folded by `parse_digits` never falls below the accumulator.
pub proof fn lemma_parse_digits_ge_acc(t: Seq<char>, acc: nat)
    ensures
        parse_digits(t, acc).0 >= acc,
    decreases t.len(),
{
    if t.len() > 0 && is_digit(t[0]) {
        lemma_parse_digits_ge_acc(t.skip(1), acc * 10 + digit_val(t[0]));
    }
}

// ---------------------------------------------------------------------------
// Literal tokens
// ---------------------------------------------------------------------------

/// Match the literal `lit` at the head of `t`; on success return the rest.
pub open spec fn spec_expect(t: Seq<char>, lit: Seq<char>) -> Option<Seq<char>> {
    if lit.len() <= t.len() && t.take(lit.len() as int) == lit {
        Some(t.skip(lit.len() as int))
    } else {
        None
    }
}

/// A literal always matches an input that starts with it.
pub proof fn lemma_expect_prefix(lit: Seq<char>, rest: Seq<char>)
    ensures
        spec_expect(lit + rest, lit) == Some(rest),
{
    assert((lit + rest).take(lit.len() as int) =~= lit);
    assert((lit + rest).skip(lit.len() as int) =~= rest);
}

/// A literal fails against an input that differs from it at some covered
/// position.
pub proof fn lemma_expect_fail_at(t: Seq<char>, lit: Seq<char>, i: int)
    requires
        0 <= i < lit.len(),
        i < t.len(),
        t[i] != lit[i],
    ensures
        spec_expect(t, lit) is None,
{
    if lit.len() <= t.len() && t.take(lit.len() as int) == lit {
        assert(t.take(lit.len() as int)[i] == t[i]);
    }
}

// ---------------------------------------------------------------------------
// Booleans
// ---------------------------------------------------------------------------

/// JSON text of a boolean.
pub open spec fn spec_encode_bool(b: bool) -> Seq<char> {
    if b {
        "true"@
    } else {
        "false"@
    }
}

/// Parse a JSON boolean at the head of `t`.
pub open spec fn spec_parse_bool(t: Seq<char>) -> Option<(bool, Seq<char>)> {
    match spec_expect(t, "true"@) {
        Some(rest) => Some((true, rest)),
        None => match spec_expect(t, "false"@) {
            Some(rest) => Some((false, rest)),
            None => None,
        },
    }
}

/// A boolean round-trips through its JSON text.
pub proof fn lemma_parse_bool_of_encode(b: bool, rest: Seq<char>)
    ensures
        spec_parse_bool(spec_encode_bool(b) + rest) == Some((b, rest)),
{
    reveal_strlit("true");
    reveal_strlit("false");
    if b {
        lemma_expect_prefix("true"@, rest);
    } else {
        let t = "false"@ + rest;
        assert(t[0] == 'f');
        lemma_expect_fail_at(t, "true"@, 0);
        lemma_expect_prefix("false"@, rest);
    }
}

// ---------------------------------------------------------------------------
// Strings with escapes
// ---------------------------------------------------------------------------

/// Whether `c` is an ASCII hexadecimal digit.
pub open spec fn is_hex(c: char) -> bool {
    ||| is_digit(c)
    ||| (97 <= (c as u32) && (c as u32) <= 102)
    ||| (65 <= (c as u32) && (c as u32) <= 70)
}

/// Numeric value of a hexadecimal digit.
pub open spec fn hex_val(c: char) -> nat {
    if is_digit(c) {
        digit_val(c)
    } else if 97 <= (c as u32) && (c as u32) <= 102 {
        ((c as u32) - 87) as nat
    } else {
        ((c as u32) - 55) as nat
    }
}

/// The lower-case hexadecimal digit character for a value below sixteen.
pub open spec fn hex_char(d: nat) -> char
    recommends
        d < 16,
{
    if d < 10 {
        digit_char(d)
    } else if d == 10 {
        'a'
    } else if d == 11 {
        'b'
    } else if d == 12 {
        'c'
    } else if d == 13 {
        'd'
    } else if d == 14 {
        'e'
    } else {
        'f'
    }
}

/// A hexadecimal digit character round-trips through its value.
pub proof fn lemma_hex_char_val(d: nat)
    requires
        d < 16,
    ensures
        is_hex(hex_char(d)),
        hex_val(hex_char(d)) == d,
{
    if d < 10 {
        lemma_digit_char_val(d);
    }
}

/// The JSON escape of one character: quote and backslash get a two-
/// character escape, control characters a `\u00XX` escape, and everything
/// else stands for itself.
pub open spec fn esc_char(c: char) -> Seq<char> {
    if c == '"' {
        seq!['\\', '"']
    } else if c == '\\' {
        seq!['\\', '\\']
    } else if (c as u32) < 32 {
        seq!['\\', 'u', '0', '0', hex_char(((c as u32) / 16) as nat), hex_char(
            ((c as u32) % 16) as nat,
        )]
    } else {
        seq![c]
    }
}

/// The body of a JSON string: every character escaped as needed.
pub open spec fn escape(s: Seq<char>) -> Seq<char>
    decreases s.len(),
{
    if s.len() == 0 {
        Seq::<char>::empty()
    } else {
        esc_char(s[0]) + escape(s.skip(1))
    }
}

/// Escaping distributes over appending one character at the end.
pub proof fn lemma_escape_snoc(s: Seq<char>, c: char)
    ensures
        escape(s.push(c)) == escape(s) + esc_char(c),
    decreases s.len(),
{
    if s.len() == 0 {
        assert(s.push(c)[0] == c);
        assert(s.push(c).skip(1) =~= Seq::<char>::empty());
        assert(escape(s.push(c)) == esc_char(c) + escape(Seq::<char>::empty()));
        assert(escape(s.push(c)) =~= escape(s) + esc_char(c));
    } else {
        assert(s.push(c)[0] == s[0]);
        assert(s.push(c).skip(1) =~= s.skip(1).push(c));
        assert(escape(s.push(c)) == esc_char(s[0]) + escape(s.skip(1).push(c)));
        lemma_escape_snoc(s.skip(1), c);
        assert(escape(s.push(c)) =~= escape(s) + esc_char(c));
    }
}

/// Parse the body of a JSON string up to and including the closing quote,
/// accumulating the unescaped characters onto `acc`.  Unescaped control
/// characters are rejected, as are escapes other than `\"`, `\\` and
/// `\u00XX` forms below `0x80`.
pub open spec fn parse_jstring_body(t: Seq<char>, acc: Seq<char>) -> Option<(Seq<char>, Seq<char>)>
    decreases t.len(),
{
    if t.len() == 0 {
        None
    } else if t[0] == '"' {
        Some((acc, t.skip(1)))
    } else if t[0] == '\\' {
        if t.len() < 2 {
            None
        } else if t[1] == '"' {
            parse_jstring_body(t.skip(2), acc.push('"'))
        } else if t[1] == '\\' {
            parse_jstring_body(t.skip(2), acc.push('\\'))
        } else if t[1] == 'u' {
            if t.len() < 6 {
                None
            } else if is_hex(t[2]) && is_hex(t[3]) && is_hex(t[4]) && is_hex(t[5]) {
                let code = hex_val(t[2]) * 4096 + hex_val(t[3]) * 256 + hex_val(t[4]) * 16
                    + hex_val(t[5]);
                if code < 128 {
                    parse_jstring_body(t.skip(6), acc.push(((code as u8) as char)))
                } else {
                    None
                }
            } else {
                None
            }
        } else {
            None
        }
    } else if (t[0] as u32) < 32 {
        None
    } else {
        parse_jstring_body(t.skip(1), acc.push(t[0]))
    }
}

/// A string body round-trips: parsing the escaped text followed by the
/// closing quote yields the original characters and the rest of the input.
pub proof fn lemma_parse_escape(s: Seq<char>, acc: Seq<char>, rest: Seq<char>)
    ensures
        parse_jstring_body(escape(s) + seq!['"'] + rest, acc) == Some((acc + s, rest)),
    decreases s.len(),
{
    let t = escape(s) + seq!['"'] + rest;
    if s.len() == 0 {
        assert(t =~= seq!['"'] + rest);
        assert(t[0] == '"');
        assert(t.skip(1) =~= rest);
        assert(acc + s =~= acc);
    } else {
        let c = s[0];
        let s1 = s.skip(1);
        let tail = escape(s1) + seq!['"'] + rest;
        assert(t =~= esc_char(c) + tail);
        if c == '"' {
            assert(t[0] == '\\' && t[1] == '"');
            assert(t.skip(2) =~= tail);
            lemma_parse_escape(s1, acc.push('"'), rest);
            assert(acc.push('"') + s1 =~= acc + s);
        } else if c == '\\' {
            assert(t[0] == '\\' && t[1] == '\\');
            assert(t.skip(2) =~= tail);
            lemma_parse_escape(s1, acc.push('\\'), rest);
            assert(acc.push('\\') + s1 =~= acc + s);
        } else if (c as u32) < 32 {
            let hi = ((c as u32) / 16) as nat;
            let lo = ((c as u32) % 16) as nat;
            lemma_hex_char_val(hi);
            lemma_hex_char_val(lo);
            lemma_digit_char_val(0);
            assert(t[0] == '\\' && t[1] == 'u' && t[2] == '0' && t[3] == '0' && t[4] == hex_char(hi)
                && t[5] == hex_char(lo));
            let code = hex_val(t[2]) * 4096 + hex_val(t[3]) * 256 + hex_val(t[4]) * 16 + hex_val(
                t[5],
            );
            assert(code == hi * 16 + lo);
            assert(hi * 16 + lo == c as u32);
            assert(code < 128);
            let b: u8 = code as u8;
            assert(b as u32 == c as u32);
            assert((b as char) as u32 == b as u32);
            vstd::utf8::char_u32_cast(c, c as u32);
            vstd::utf8::char_u32_cast((b as char), (b as char) as u32);
            assert(((code as u8) as char) == c);
            assert(t.skip(6) =~= tail);
            lemma_parse_escape(s1, acc.push(c), rest);
            assert(acc.push(c) + s1 =~= acc + s);
        } else {
            assert(t[0] == c);
            assert(t.skip(1) =~= tail);
            lemma_parse_escape(s1, acc.push(c), rest);
            assert(acc.push(c) + s1 =~= acc + s);
        }
    }
}

/// JSON text of a whole string value, quotes included.
pub open spec fn spec_encode_string(s: Seq<char>) -> Seq<char> {
    seq!['"'] + escape(s) + seq!['"']
}

/// Parse a whole JSON string value, quotes included, at the head of `t`.
pub open spec fn spec_parse_string(t: Seq<char>) -> Option<(Seq<char>, Seq<char>)> {
    if t.len() > 0 && t[0] == '"' {
        parse_jstring_body(t.skip(1), Seq::<char>::empty())
    } else {
        None
    }
}

/// A string value round-trips through its JSON text.
pub proof fn lemma_parse_string_of_encode(s: Seq<char>, rest: Seq<char>)
    ensures
        spec_parse_string(spec_encode_string(s) + rest) == Some((s, rest)),
{
    let t = spec_encode_string(s) + rest;
    assert(t[0] == '"');
    assert(t.skip(1) =~= escape(s) + seq!['"'] + rest);
    lemma_parse_escape(s, Seq::<char>::empty(), rest);
    assert(Seq::<char>::empty() + s =~= s);
}

// ---------------------------------------------------------------------------
// Executable encoders
// ---------------------------------------------------------------------------

/// The ASCII digit character for a value below ten.
fn digit_char_of(d: u64) -> (r: char)
    requires
        d < 10,
    ensures
        r == digit_char(d as nat),
{
    match d {
        0 => '0',
        1 => '1',
        2 => '2',
        3 => '3',
        4 => '4',
        5 => '5',
        6 => '6',
        7 => '7',
        8 => '8',
        _ => '9',
    }
}

/// The lower-case hexadecimal digit character for a value below sixteen.
fn hex_char_of(d: u32) -> (r: char)
    requires
        d < 16,
    ensures
        r == hex_char(d as nat),
{
    if d < 10 {
        digit_char_of(d as u64)
    } else {
        match d {
            10 => 'a',
            11 => 'b',
            12 => 'c',
            13 => 'd',
            14 => 'e',
            _ => 'f',
        }
    }
}

/// Append the decimal digits of `n`.
pub fn append_u64(out: &mut String, n: u64)
    ensures
        final(out)@ == old(out)@ + dec_digits(n as nat),
    decreases n,
{
    if n < 10 {
        push_char(out, digit_char_of(n));
        proof {
            assert(old(out)@.push(digit_char(n as nat)) =~= old(out)@ + dec_digits(n as nat));
        }
    } else {
        append_u64(out, n / 10);
        push_char(out, digit_char_of(n % 10));
        proof {
            assert((old(out)@ + dec_digits(n as nat / 10)).push(digit_char((n % 10) as nat)) =~= old(
                out,
            )@ + dec_digits(n as nat));
        }
    }
}

/// Append the JSON escape of one character.
fn append_esc_char(out: &mut String, c: char)
    ensures
        final(out)@ == old(out)@ + esc_char(c),
{
    let u = c as u32;
    if c == '"' {
        push_char(out, '\\');
        push_char(out, '"');
        proof {
            assert(old(out)@.push('\\').push('"') =~= old(out)@ + esc_char(c));
        }
    } else if c == '\\' {
        push_char(out, '\\');
        push_char(out, '\\');
        proof {
            assert(old(out)@.push('\\').push('\\') =~= old(out)@ + esc_char(c));
        }
    } else if u < 32 {
        push_char(out, '\\');
        push_char(out, 'u');
        push_char(out, '0');
        push_char(out, '0');
        push_char(out, hex_char_of(u / 16));
        push_char(out, hex_char_of(u % 16));
        proof {
            assert(old(out)@.push('\\').push('u').push('0').push('0').push(
                hex_char(((c as u32) / 16) as nat),
            ).push(hex_char(((c as u32) % 16) as nat)) =~= old(out)@ + esc_char(c));
        }
    } else {
        push_char(out, c);
        proof {
            assert(old(out)@.push(c) =~= old(out)@ + esc_char(c));
        }
    }
}

/// Append a whole JSON string value, quotes and escapes included.
pub fn append_json_string(out: &mut String, s: &str)
    ensures
        final(out)@ == old(out)@ + spec_encode_string(s@),
{
    push_char(out, '"');
    let n = s.unicode_len();
    let mut k: usize = 0;
    proof {
        assert(s@.take(0) =~= Seq::<char>::empty());
        assert(old(out)@.push('"') =~= old(out)@ + seq!['"'] + escape(s@.take(0)));
    }
    while k < n
        invariant
            k <= n,
            n == s@.len(),
            out@ == old(out)@ + seq!['"'] + escape(s@.take(k as int)),
        decreases n - k,
    {
        let c = s.get_char(k);
        append_esc_char(out, c);
        proof {
            lemma_escape_snoc(s@.take(k as int), c);
            assert(s@.take(k as int).push(c) =~= s@.take(k as int + 1));
            assert((old(out)@ + seq!['"'] + escape(s@.take(k as int))) + esc_char(c) =~= old(out)@
                + seq!['"'] + escape(s@.take(k as int + 1)));
        }
        k += 1;
    }
    push_char(out, '"');
    proof {
        assert(s@.take(n as int) =~= s@);
        assert((old(out)@ + seq!['"'] + escape(s@)).push('"') =~= old(out)@ + spec_encode_string(
            s@,
        ));
    }
}

// ---------------------------------------------------------------------------
// Executable parsers
// ---------------------------------------------------------------------------

/// Match the literal `lit` at position `i` of `s`; on success return the
/// position just past it.
pub fn expect_lit_at(s: &str, i: usize, lit: &str) -> (r: Option<usize>)
    requires
        i <= s@.len(),
    ensures
        match r {
            Some(j) => i <= j <= s@.len() && spec_expect(s@.skip(i as int), lit@) == Some(
                s@.skip(j as int),
            ),
            None => spec_expect(s@.skip(i as int), lit@) is None,
        },
{
    let slen = s.unicode_len();
    let n = lit.unicode_len();
    if slen - i < n {
        return None;
    }
    let mut k: usize = 0;
    while k < n
        invariant
            k <= n,
            n == lit@.len(),
            slen == s@.len(),
            i + n <= slen,
            forall|m: int| 0 <= m < k ==> s@[i + m] == lit@[m],
        decreases n - k,
    {
        let a = s.get_char(i + k);
        let b = lit.get_char(k);
        if a != b {
            proof {
                assert(s@.skip(i as int)[k as int] == s@[i + k]);
                lemma_expect_fail_at(s@.skip(i as int), lit@, k as int);
            }
            return None;
        }
        k += 1;
    }
    proof {
        assert(s@.skip(i as int).take(n as int) =~= lit@);
        assert(s@.skip(i as int).skip(n as int) =~= s@.skip(i as int + n as int));
    }
    Some(i + n)
}

/// Parse a decimal `u64` at position `i` of `s`.
pub fn parse_u64_at(s: &str, i: usize) -> (r: Option<(u64, usize)>)
    requires
        i <= s@.len(),
    ensures
        match r {
            Some(p) => i <= p.1 <= s@.len() && spec_parse_u64(s@.skip(i as int)) == Some(
                (p.0, s@.skip(p.1 as int)),
            ),
            None => spec_parse_u64(s@.skip(i as int)) is None,
        },
{
    let slen = s.unicode_len();
    if i == slen {
        return None;
    }
    let c0 = s.get_char(i);
    let u0 = c0 as u32;
    if !(48 <= u0 && u0 <= 57) {
        proof {
            assert(s@.skip(i as int)[0] == s@[i as int]);
        }
        return None;
    }
    let mut acc: u64 = 0;
    let mut j: usize = i;
    proof {
        assert(s@.skip(i as int)[0] == s@[i as int]);
    }
    loop
        invariant
            i <= j <= slen,
            slen == s@.len(),
            i < s@.len(),
            is_digit(s@.skip(i as int)[0]),
            parse_digits(s@.skip(i as int), 0) == parse_digits(s@.skip(j as int), acc as nat),
        decreases slen - j,
    {
        if j == slen {
            proof {
                assert(s@.skip(j as int).len() == 0);
            }
            return Some((acc, j));
        }
        let c = s.get_char(j);
        let u = c as u32;
        if !(48 <= u && u <= 57) {
            proof {
                assert(s@.skip(j as int)[0] == s@[j as int]);
            }
            return Some((acc, j));
        }
        let d = (u - 48) as u64;
        proof {
            assert(s@.skip(j as int)[0] == s@[j as int]);
            assert(is_digit(s@[j as int]) && digit_val(s@[j as int]) == d as nat);
        }
        if acc > (u64::MAX - d) / 10 {
            proof {
                let t = s@.skip(j as int);
                assert(parse_digits(t, acc as nat) == parse_digits(
                    t.skip(1),
                    acc as nat * 10 + d as nat,
                ));
                lemma_parse_digits_ge_acc(t.skip(1), acc as nat * 10 + d as nat);
                assert(acc as nat * 10 + d as nat > u64::MAX) by (nonlinear_arith)
                    requires
                        acc > (u64::MAX - d) / 10,
                        d < 10,
                        (u64::MAX - d) / 10 * 10 + (u64::MAX - d) % 10 == u64::MAX - d,
                        (u64::MAX - d) % 10 <= 9,
                {
                }
            }
            return None;
        }
        proof {
            let t = s@.skip(j as int);
            assert(parse_digits(t, acc as nat) == parse_digits(
                t.skip(1),
                acc as nat * 10 + d as nat,
            ));
            lemma_skip_add(s@, j as int, 1);
        }
        acc = acc * 10 + d;
        j = j + 1;
    }
}

/// Numeric value of a hexadecimal digit character, if it is one.
fn hex_digit_val(c: char) -> (r: Option<u32>)
    ensures
        match r {
            Some(v) => is_hex(c) && v == hex_val(c) && v < 16,
            None => !is_hex(c),
        },
{
    let u = c as u32;
    if 48 <= u && u <= 57 {
        Some(u - 48)
    } else if 97 <= u && u <= 102 {
        Some(u - 87)
    } else if 65 <= u && u <= 70 {
        Some(u - 55)
    } else {
        None
    }
}

/// Parse a whole JSON string value, quotes included, at position `i` of
/// `s`.
pub fn parse_string_at(s: &str, i: usize) -> (r: Option<(String, usize)>)
    requires
        i <= s@.len(),
    ensures
        match r {
            Some(p) => i <= p.1 <= s@.len() && spec_parse_string(s@.skip(i as int)) == Some(
                (p.0@, s@.skip(p.1 as int)),
            ),
            None => spec_parse_string(s@.skip(i as int)) is None,
        },
{
    let slen = s.unicode_len();
    if i == slen {
        return None;
    }
    let q = s.get_char(i);
    proof {
        assert(s@.skip(i as int)[0] == s@[i as int]);
    }
    if q != '"' {
        return None;
    }
    let mut acc = String::new();
    let mut j: usize = i + 1;
    proof {
        lemma_skip_add(s@, i as int, 1);
        assert(spec_parse_string(s@.skip(i as int)) == parse_jstring_body(
            s@.skip(i as int + 1),
            Seq::<char>::empty(),
        ));
    }
    loop
        invariant
            i + 1 <= j <= slen,
            slen == s@.len(),
            i < s@.len(),
            spec_parse_string(s@.skip(i as int)) == parse_jstring_body(s@.skip(j as int), acc@),
        decreases slen - j,
    {
        if j == slen {
            proof {
                assert(s@.skip(j as int).len() == 0);
            }
            return None;
        }
        let c = s.get_char(j);
        proof {
            assert(s@.skip(j as int)[0] == s@[j as int]);
        }
        if c == '"' {
            proof {
                lemma_skip_add(s@, j as int, 1);
            }
            return Some((acc, j + 1));
        }
        if c == '\\' {
            if slen - j < 2 {
                proof {
                    assert(s@.skip(j as int).len() < 2);
                }
                return None;
            }
            let c2 = s.get_char(j + 1);
            proof {
                assert(s@.skip(j as int)[1] == s@[j as int + 1]);
            }
            if c2 == '"' {
                push_char(&mut acc, '"');
                proof {
                    lemma_skip_add(s@, j as int, 2);
                }
                j = j + 2;
            } else if c2 == '\\' {
                push_char(&mut acc, '\\');
                proof {
                    lemma_skip_add(s@, j as int, 2);
                }
                j = j + 2;
            } else if c2 == 'u' {
                if slen - j < 6 {
                    proof {
                        assert(s@.skip(j as int).len() < 6);
                    }
                    return None;
                }
                proof {
                    assert(s@.skip(j as int)[2] == s@[j as int + 2]);
                    assert(s@.skip(j as int)[3] == s@[j as int + 3]);
                    assert(s@.skip(j as int)[4] == s@[j as int + 4]);
                    assert(s@.skip(j as int)[5] == s@[j as int + 5]);
                }
                let v1 = match hex_digit_val(s.get_char(j + 2)) {
                    Some(v) => v,
                    None => {
                        return None;
                    },
                };
                let v2 = match hex_digit_val(s.get_char(j + 3)) {
                    Some(v) => v,
                    None => {
                        return None;
                    },
                };
                let v3 = match hex_digit_val(s.get_char(j + 4)) {
                    Some(v) => v,
                    None => {
                        return None;
                    },
                };
                let v4 = match hex_digit_val(s.get_char(j + 5)) {
                    Some(v) => v,
                    None => {
                        return None;
                    },
                };
                let code: u32 = v1 * 4096 + v2 * 256 + v3 * 16 + v4;
                if code >= 128 {
                    return None;
                }
                push_char(&mut acc, (code as u8) as char);
                proof {
                    lemma_skip_add(s@, j as int, 6);
                }
                j = j + 6;
            } else {
                return None;
            }
        } else {
            let u = c as u32;
            if u < 32 {
                return None;
            }
            push_char(&mut acc, c);
            proof {
                lemma_skip_add(s@, j as int, 1);
            }
            j = j + 1;
        }
    }
}

/// Whether two strings hold the same characters.
pub fn str_eq(a: &str, b: &str) -> (r: bool)
    ensures
        r == (a@ == b@),
{
    let n = a.unicode_len();
    if n != b.unicode_len() {
        return false;
    }
    let mut k: usize = 0;
    while k < n
        invariant
            k <= n,
            n == a@.len(),
            n == b@.len(),
            forall|m: int| 0 <= m < k ==> a@[m] == b@[m],
        decreases n - k,
    {
        if a.get_char(k) != b.get_char(k) {
            return false;
        }
        k += 1;
    }
    proof {
        assert(a@ =~= b@);
    }
    true
}

/// Parse a JSON boolean at position `i` of `s`.
pub fn parse_bool_at(s: &str, i: usize) -> (r: Option<(bool, usize)>)
    requires
        i <= s@.len(),
    ensures
        match r {
            Some(p) => i <= p.1 <= s@.len() && spec_parse_bool(s@.skip(i as int)) == Some(
                (p.0, s@.skip(p.1 as int)),
            ),
            None => spec_parse_bool(s@.skip(i as int)) is None,
        },
{
    match expect_lit_at(s, i, "true") {
        Some(j) => Some((true, j)),
        None => match expect_lit_at(s, i, "false") {
            Some(j) => Some((false, j)),
            None => None,
        },
    }
}

} // verus!
