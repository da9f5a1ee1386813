//! Text helpers of the binding: how numbers are written into messages,
//! how the error-level setting is read, how strings are handed to C, and
//! how bytes coming back from C become text.
use vstd::prelude::*;
use vstd::utf8::{valid_utf8, decode_utf8};
use vstd::string::StringSliceAdditionalSpecFns;

verus! {

/// The digit characters, lower case.
pub open spec fn lower_digits() -> Seq<char> {
    seq!['0', '1', '2', '3', '4', '5', '6', '7', '8', '9', 'a', 'b', 'c', 'd', 'e', 'f']
}

/// The digit characters, upper case.
pub open spec fn upper_digits() -> Seq<char> {
    seq!['0', '1', '2', '3', '4', '5', '6', '7', '8', '9', 'A', 'B', 'C', 'D', 'E', 'F']
}

/// The character of digit `d`.
pub open spec fn digit_char(d: int, upper: bool) -> char {
    if upper { upper_digits()[d] } else { lower_digits()[d] }
}

/// The digits of `n` in base `radix`, most significant first, without
/// leading zeros (zero itself is written `0`).
pub open spec fn radix_digits(n: nat, radix: nat, upper: bool) -> Seq<char>
    decreases n,
{
    if radix < 2 || n < radix {
        seq![digit_char(n as int, upper)]
    } else {
        proof {
            assert(n / radix < n) by (nonlinear_arith)
                requires
                    n >= radix,
                    radix >= 2,
            ;
        }
        radix_digits(n / radix, radix, upper).push(digit_char((n % radix) as int, upper))
    }
}

/// A signed number written in decimal, with a leading `-` when negative.
pub open spec fn decimal_text(v: int) -> Seq<char> {
    if v < 0 {
        seq!['-'] + radix_digits((-v) as nat, 10, false)
    } else {
        radix_digits(v as nat, 10, false)
    }
}

/// The 32-bit two's complement bit pattern of `v`, read as an unsigned number.
pub open spec fn bit_pattern_32(v: int) -> nat {
    if v < 0 { (v + 0x1_0000_0000) as nat } else { v as nat }
}

/// The value of a digit character in the usual notation: `0`-`9` are 0-9,
/// `a`-`f` and `A`-`F` are 10-15; any other character has no value (-1).
pub open spec fn standard_digit_value(c: char) -> int {
    let u = c as int;
    if 48 <= u <= 57 {
        u - 48
    } else if 97 <= u <= 102 {
        u - 87
    } else if 65 <= u <= 70 {
        u - 55
    } else {
        -1
    }
}

/// Whether a character is a digit of the given case: `0`-`9`, or a letter
/// `a`-`f` (lower case) or `A`-`F` (upper case).
pub open spec fn is_cased_digit(c: char, upper: bool) -> bool {
    let u = c as int;
    (48 <= u <= 57) || (!upper && 97 <= u <= 102) || (upper && 65 <= u <= 70)
}

/// The number that a digit string denotes in base `radix`, each character
/// read by its usual value.
pub open spec fn denoted_value(s: Seq<char>, radix: int) -> int
    decreases s.len(),
{
    if s.len() == 0 {
        0
    } else {
        denoted_value(s.drop_last(), radix) * radix + standard_digit_value(s.last())
    }
}

proof fn lemma_digit_char_value(d: int, upper: bool)
    requires
        0 <= d < 16,
    ensures
        standard_digit_value(digit_char(d, upper)) == d,
        is_cased_digit(digit_char(d, upper), upper),
{
    let l = lower_digits();
    let u = upper_digits();
    assert(l[0] == '0' && l[1] == '1' && l[2] == '2' && l[3] == '3' && l[4] == '4' && l[5] == '5');
    assert(l[6] == '6' && l[7] == '7' && l[8] == '8' && l[9] == '9' && l[10] == 'a' && l[11] == 'b');
    assert(l[12] == 'c' && l[13] == 'd' && l[14] == 'e' && l[15] == 'f');
    assert(u[0] == '0' && u[1] == '1' && u[2] == '2' && u[3] == '3' && u[4] == '4' && u[5] == '5');
    assert(u[6] == '6' && u[7] == '7' && u[8] == '8' && u[9] == '9' && u[10] == 'A' && u[11] == 'B');
    assert(u[12] == 'C' && u[13] == 'D' && u[14] == 'E' && u[15] == 'F');
}

/// The digits that the formatting writes are the usual notation of the
/// number: every character is a digit of the requested case, the string
/// is not empty, it has no leading zero unless it is `0`, and it denotes
/// exactly `n` in base `radix`.
pub proof fn radix_digits_denote_the_number(n: nat, radix: nat, upper: bool)
    requires
        2 <= radix <= 16,
    ensures
        radix_digits(n, radix, upper).len() > 0,
        denoted_value(radix_digits(n, radix, upper), radix as int) == n,
        forall|i: int| 0 <= i < radix_digits(n, radix, upper).len() ==> is_cased_digit(
            #[trigger] radix_digits(n, radix, upper)[i],
            upper,
        ) && 0 <= standard_digit_value(radix_digits(n, radix, upper)[i]) < radix,
        n > 0 ==> standard_digit_value(radix_digits(n, radix, upper)[0]) != 0,
    decreases n,
{
    let s = radix_digits(n, radix, upper);
    if n < radix {
        lemma_digit_char_value(n as int, upper);
        assert(s == seq![digit_char(n as int, upper)]);
        assert(s.drop_last() =~= Seq::<char>::empty());
        assert(denoted_value(s.drop_last(), radix as int) == 0);
        assert(s.last() == digit_char(n as int, upper));
        assert(denoted_value(s, radix as int) == denoted_value(s.drop_last(), radix as int) * radix + standard_digit_value(s.last()));
        assert(0 * (radix as int) == 0);
    } else {
        assert(n / radix < n) by (nonlinear_arith)
            requires
                n >= radix,
                radix >= 2,
        ;
        assert(0 < n / radix) by (nonlinear_arith)
            requires
                n >= radix,
                radix >= 2,
        ;
        radix_digits_denote_the_number(n / radix, radix, upper);
        let p = radix_digits(n / radix, radix, upper);
        let d = (n % radix) as int;
        assert(0 <= d < radix) by (nonlinear_arith)
            requires
                d == n % radix,
                radix >= 2,
        ;
        lemma_digit_char_value(d, upper);
        assert(s == p.push(digit_char(d, upper)));
        assert(s.drop_last() =~= p);
        assert(s[0] == p[0]);
        assert(n == (n / radix) * radix + n % radix) by (nonlinear_arith)
            requires
                radix >= 2,
        ;
        assert(s.last() == digit_char(d, upper));
        assert(denoted_value(s, radix as int) == denoted_value(p, radix as int) * radix + d);
        assert forall|i: int| 0 <= i < s.len() implies is_cased_digit(#[trigger] s[i], upper) && 0
            <= standard_digit_value(s[i]) < radix by {
            if i < p.len() {
                assert(s[i] == p[i]);
            }
        }
    }
}

/// The decimal text of a signed number is its magnitude in the usual
/// notation, preceded by `-` exactly when the number is negative.
pub proof fn decimal_text_denotes_the_number(v: int)
    ensures
        v < 0 ==> decimal_text(v)[0] == '-' && denoted_value(decimal_text(v).drop_first(), 10) == -v,
        v >= 0 ==> denoted_value(decimal_text(v), 10) == v && decimal_text(v)[0] != '-',
{
    if v < 0 {
        radix_digits_denote_the_number((-v) as nat, 10, false);
        assert(decimal_text(v).drop_first() =~= radix_digits((-v) as nat, 10, false));
    } else {
        radix_digits_denote_the_number(v as nat, 10, false);
        let c = decimal_text(v)[0];
        assert(is_cased_digit(c, false));
    }
}

/// The bit pattern of a 32-bit number is the one unsigned 32-bit number
/// congruent to it modulo 2^32: the number itself when non-negative, the
/// number plus 2^32 when negative.
pub proof fn bit_pattern_is_twos_complement(v: int)
    requires
        -0x8000_0000 <= v < 0x8000_0000,
    ensures
        0 <= bit_pattern_32(v) < 0x1_0000_0000,
        bit_pattern_32(v) == v || bit_pattern_32(v) == v + 0x1_0000_0000,
        v >= 0 ==> bit_pattern_32(v) == v,
        v < 0 ==> bit_pattern_32(v) >= 0x8000_0000,
{
}

fn digit_str(d: u64, upper: bool) -> (s: &'static str)
    requires
        d < 16,
    ensures
        s@ == seq![digit_char(d as int, upper)],
{
    if d < 10 {
        if d == 0 { proof { reveal_strlit("0"); } "0" }
        else if d == 1 { proof { reveal_strlit("1"); } "1" }
        else if d == 2 { proof { reveal_strlit("2"); } "2" }
        else if d == 3 { proof { reveal_strlit("3"); } "3" }
        else if d == 4 { proof { reveal_strlit("4"); } "4" }
        else if d == 5 { proof { reveal_strlit("5"); } "5" }
        else if d == 6 { proof { reveal_strlit("6"); } "6" }
        else if d == 7 { proof { reveal_strlit("7"); } "7" }
        else if d == 8 { proof { reveal_strlit("8"); } "8" }
        else { proof { reveal_strlit("9"); } "9" }
    } else if upper {
        if d == 10 { proof { reveal_strlit("A"); } "A" }
        else if d == 11 { proof { reveal_strlit("B"); } "B" }
        else if d == 12 { proof { reveal_strlit("C"); } "C" }
        else if d == 13 { proof { reveal_strlit("D"); } "D" }
        else if d == 14 { proof { reveal_strlit("E"); } "E" }
        else { proof { reveal_strlit("F"); } "F" }
    } else {
        if d == 10 { proof { reveal_strlit("a"); } "a" }
        else if d == 11 { proof { reveal_strlit("b"); } "b" }
        else if d == 12 { proof { reveal_strlit("c"); } "c" }
        else if d == 13 { proof { reveal_strlit("d"); } "d" }
        else if d == 14 { proof { reveal_strlit("e"); } "e" }
        else { proof { reveal_strlit("f"); } "f" }
    }
}

fn push_radix_digits(n: u64, radix: u64, upper: bool, out: &mut String)
    requires
        2 <= radix <= 16,
    ensures
        final(out)@ == old(out)@ + radix_digits(n as nat, radix as nat, upper),
    decreases n,
{
    if n >= radix {
        assert(n / radix < n) by (nonlinear_arith)
            requires
                n >= radix,
                radix >= 2,
        ;
        push_radix_digits(n / radix, radix, upper, out);
    }
    let d: u64 = n % radix;
    out.append(digit_str(d, upper));
    assert(final(out)@ == old(out)@ + radix_digits(n as nat, radix as nat, upper)) by {
        if n >= radix {
            assert(old(out)@ + radix_digits((n / radix) as nat, radix as nat, upper)
                + seq![digit_char(d as int, upper)] =~= old(out)@ + radix_digits(
                n as nat,
                radix as nat,
                upper,
            ));
        } else {
            vstd::arithmetic::div_mod::lemma_small_mod(n as nat, radix as nat);
            assert(old(out)@ + seq![digit_char(d as int, upper)] =~= old(out)@ + radix_digits(
                n as nat,
                radix as nat,
                upper,
            ));
        }
    }
}

/// Writes `n` in base `radix` (2 to 16), most significant digit first.
pub fn radix_string(n: u64, radix: u64, upper: bool) -> (s: String)
    requires
        2 <= radix <= 16,
    ensures
        s@ == radix_digits(n as nat, radix as nat, upper),
{
    let mut s: String = String::new();
    push_radix_digits(n, radix, upper, &mut s);
    assert(s@ =~= radix_digits(n as nat, radix as nat, upper));
    s
}

/// Writes a signed 32-bit number in decimal, as `{}` formats it.
pub fn decimal_string(v: i32) -> (s: String)
    ensures
        s@ == decimal_text(v as int),
{
    if v < 0 {
        let magnitude: u64 = (0i64 - (v as i64)) as u64;
        let mut s: String = String::new();
        proof { reveal_strlit("-"); }
        s.append("-");
        push_radix_digits(magnitude, 10, false, &mut s);
        s
    } else {
        radix_string(v as u64, 10, false)
    }
}

/// The bit pattern of a signed 32-bit number as an unsigned one, as the
/// binary, octal and hexadecimal formats print it.
pub fn bit_pattern(v: i32) -> (u: u64)
    ensures
        u == bit_pattern_32(v as int),
{
    if v < 0 {
        ((v as i64) + 0x1_0000_0000i64) as u64
    } else {
        v as u64
    }
}

/// `s` followed by a NUL character, the form in which a Rust string is
/// handed to a C function.
pub fn with_nul(s: &str) -> (r: String)
    ensures
        r@ == s@.push('\0'),
{
    let mut r: String = s.to_owned();
    proof { reveal_strlit("\0"); }
    r.append("\0");
    assert(r@ =~= s@.push('\0'));
    r
}

/// Whether a byte is one of the ASCII digits `0` to `9`.
pub open spec fn is_ascii_digit(b: u8) -> bool {
    48 <= b <= 57
}

/// Whether every byte of `s` is an ASCII digit.
pub open spec fn all_ascii_digits(s: Seq<u8>) -> bool {
    forall|i: int| 0 <= i < s.len() ==> is_ascii_digit(#[trigger] s[i])
}

/// The number that a run of ASCII digits denotes in decimal.
pub open spec fn digits_value(s: Seq<u8>) -> int
    decreases s.len(),
{
    if s.len() == 0 {
        0
    } else {
        digits_value(s.drop_last()) * 10 + (s.last() - 48)
    }
}

/// What `str::parse::<i32>` gives for the text whose UTF-8 bytes are `s`:
/// an optional `+` or `-`, then at least one decimal digit and nothing
/// else, denoting a value within the range of `i32`.
pub open spec fn parsed_i32(s: Seq<u8>) -> Option<i32> {
    let signed = s.len() > 0 && (s[0] == 45u8 || s[0] == 43u8);
    let negative = s.len() > 0 && s[0] == 45u8;
    let body = if signed { s.drop_first() } else { s };
    if body.len() == 0 || !all_ascii_digits(body) {
        None
    } else {
        let v = if negative { -digits_value(body) } else { digits_value(body) };
        if i32::MIN <= v <= i32::MAX { Some(v as i32) } else { None }
    }
}

proof fn lemma_digits_value_nonneg(s: Seq<u8>)
    requires
        all_ascii_digits(s),
    ensures
        digits_value(s) >= 0,
    decreases s.len(),
{
    if s.len() > 0 {
        assert(is_ascii_digit(s[s.len() - 1]));
        lemma_digits_value_nonneg(s.drop_last());
    }
}

proof fn lemma_digits_value_prefix(s: Seq<u8>, k: int)
    requires
        all_ascii_digits(s),
        0 <= k <= s.len(),
    ensures
        digits_value(s) >= digits_value(s.take(k)),
    decreases s.len(),
{
    if k < s.len() {
        assert(is_ascii_digit(s[s.len() - 1]));
        lemma_digits_value_prefix(s.drop_last(), k);
        lemma_digits_value_nonneg(s.drop_last());
        assert(s.drop_last().take(k) =~= s.take(k));
    } else {
        assert(s.take(k) =~= s);
    }
}

/// Reads a signed 32-bit decimal number as `str::parse::<i32>` does:
/// `None` for an empty text, a lone sign, any character other than a
/// digit after the sign, or a value out of range.
pub fn parse_i32(text: &str) -> (r: Option<i32>)
    ensures
        r == parsed_i32(text.spec_bytes()),
{
    let b: &[u8] = text.as_bytes();
    let n: usize = b.len();
    if n == 0 {
        return None;
    }
    let negative: bool = b[0] == 45u8;
    let start: usize = if b[0] == 45u8 || b[0] == 43u8 { 1 } else { 0 };
    let ghost s: Seq<u8> = b@;
    let ghost body: Seq<u8> = s.subrange(start as int, n as int);
    assert(body =~= (if start == 1 { s.drop_first() } else { s }));
    if start == n {
        return None;
    }
    let mut acc: u64 = 0;
    let mut i: usize = start;
    while i < n
        invariant
            b@ == s,
            s == text.spec_bytes(),
            n == s.len(),
            n > 0,
            negative == (s[0] == 45u8),
            (start == 1) == (s[0] == 45u8 || s[0] == 43u8),
            body == (if start == 1 { s.drop_first() } else { s }),
            body == s.subrange(start as int, n as int),
            start <= i <= n,
            acc == digits_value(body.take(i - start)),
            acc <= 2147483648,
            all_ascii_digits(body.take(i - start)),
        decreases n - i,
    {
        let c: u8 = b[i];
        if c < 48u8 || c > 57u8 {
            assert(body[i - start] == c);
            assert(!all_ascii_digits(body));
            return None;
        }
        let next: u64 = acc * 10 + ((c - 48u8) as u64);
        let ghost prefix: Seq<u8> = body.take(i - start + 1);
        assert(prefix.drop_last() =~= body.take(i - start));
        assert(prefix.last() == c);
        assert(next == digits_value(prefix));
        assert(all_ascii_digits(prefix));
        if next > 2147483648 {
            proof {
                if all_ascii_digits(body) {
                    lemma_digits_value_prefix(body, (i - start + 1) as int);
                }
            }
            return None;
        }
        acc = next;
        i = i + 1;
    }
    assert(body.take(n - start) =~= body);
    if negative {
        Some((0i64 - (acc as i64)) as i32)
    } else if acc <= 2147483647 {
        Some(acc as i32)
    } else {
        None
    }
}

/// `std::str::from_utf8`, the check behind `CStr::to_str`: the standard
/// library documents that it succeeds exactly on valid UTF-8 and that the
/// text holds the decoded characters; the claim is stated with vstd's model
/// of UTF-8. The text is handed back as an owned `String`.
#[verifier::external_body]
pub fn utf8_text(bytes: &[u8]) -> (res: Option<String>)
    ensures
        res is Some <==> valid_utf8(bytes@),
        res matches Some(s) ==> s@ == decode_utf8(bytes@),
{
    match std::str::from_utf8(bytes) {
        Ok(s) => Some(s.to_string()),
        Err(_) => None,
    }
}

} // verus!
