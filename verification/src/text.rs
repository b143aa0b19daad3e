//! Decimal and hexadecimal text: rendering integers, fixed-width padding,
//! and parsing hexadecimal numbers with the exact acceptance rules of
//! `u64::from_str_radix(_, 16)`.

use vstd::prelude::*;

verus! {

use vstd::string::StrSliceExecFns;
use vstd::string::StringExecFns;

/// The decimal digit character for `d` (`0 <= d <= 9`).
pub open spec fn dec_digit(d: int) -> char {
    if d == 0 {
        '0'
    } else if d == 1 {
        '1'
    } else if d == 2 {
        '2'
    } else if d == 3 {
        '3'
    } else if d == 4 {
        '4'
    } else if d == 5 {
        '5'
    } else if d == 6 {
        '6'
    } else if d == 7 {
        '7'
    } else if d == 8 {
        '8'
    } else {
        '9'
    }
}

/// The lower-case hexadecimal digit character for `d` (`0 <= d <= 15`).
pub open spec fn hex_digit(d: int) -> char {
    if d < 10 {
        dec_digit(d)
    } else if d == 10 {
        'a'
    } else if d == 11 {
        'b'
    } else if d == 12 {
        'c'
    } else if d == 13 {
        'd'
    } else if d == 14 {
        'e'
    } else {
        'f'
    }
}

/// Decimal rendering of `n`, without sign or padding.
pub open spec fn spec_udec(n: nat) -> Seq<char>
    decreases n,
{
    if n < 10 {
        seq![dec_digit(n as int)]
    } else {
        spec_udec(n / 10) + seq![dec_digit((n % 10) as int)]
    }
}

/// Decimal rendering of a signed integer: a `-` sign followed by the
/// magnitude.
pub open spec fn spec_idec(n: int) -> Seq<char> {
    if n >= 0 {
        spec_udec(n as nat)
    } else {
        seq!['-'] + spec_udec((-n) as nat)
    }
}

/// The lowest `width` hexadecimal digits of `n`, most significant first,
/// zero-padded on the left.
pub open spec fn spec_hex_fixed(n: nat, width: nat) -> Seq<char>
    decreases width,
{
    if width == 0 {
        Seq::empty()
    } else {
        spec_hex_fixed(n / 16, (width - 1) as nat) + seq![hex_digit((n % 16) as int)]
    }
}

/// `k` copies of the character `c`.
pub open spec fn char_repeat(c: char, k: nat) -> Seq<char>
    decreases k,
{
    if k == 0 {
        Seq::empty()
    } else {
        char_repeat(c, (k - 1) as nat) + seq![c]
    }
}

/// `s` padded on the left with `c` up to `width` characters; `s` unchanged
/// if it is already that wide.
pub open spec fn spec_pad_left(s: Seq<char>, c: char, width: nat) -> Seq<char> {
    if s.len() >= width {
        s
    } else {
        char_repeat(c, (width - s.len()) as nat) + s
    }
}

/// Whether `p` is a prefix of `s`.
pub open spec fn spec_starts_with(s: Seq<char>, p: Seq<char>) -> bool {
    p.len() <= s.len() && s.subrange(0, p.len() as int) == p
}

fn dec_digit_str(d: u64) -> (r: &'static str)
    requires
        d < 10,
    ensures
        r@ == seq![dec_digit(d as int)],
{
    proof {
        reveal_strlit("0");
        reveal_strlit("1");
        reveal_strlit("2");
        reveal_strlit("3");
        reveal_strlit("4");
        reveal_strlit("5");
        reveal_strlit("6");
        reveal_strlit("7");
        reveal_strlit("8");
        reveal_strlit("9");
    }
    let r = if d == 0 {
        "0"
    } else if d == 1 {
        "1"
    } else if d == 2 {
        "2"
    } else if d == 3 {
        "3"
    } else if d == 4 {
        "4"
    } else if d == 5 {
        "5"
    } else if d == 6 {
        "6"
    } else if d == 7 {
        "7"
    } else if d == 8 {
        "8"
    } else {
        "9"
    };
    proof {
        assert(r@ =~= seq![dec_digit(d as int)]);
    }
    r
}

fn hex_digit_str(d: u64) -> (r: &'static str)
    requires
        d < 16,
    ensures
        r@ == seq![hex_digit(d as int)],
{
    if d < 10 {
        dec_digit_str(d)
    } else {
        proof {
            reveal_strlit("a");
            reveal_strlit("b");
            reveal_strlit("c");
            reveal_strlit("d");
            reveal_strlit("e");
            reveal_strlit("f");
        }
        let r = if d == 10 {
            "a"
        } else if d == 11 {
            "b"
        } else if d == 12 {
            "c"
        } else if d == 13 {
            "d"
        } else if d == 14 {
            "e"
        } else {
            "f"
        };
        proof {
            assert(r@ =~= seq![hex_digit(d as int)]);
        }
        r
    }
}

/// Renders `n` in decimal.
pub fn u64_dec(n: u64) -> (r: String)
    ensures
        r@ == spec_udec(n as nat),
    decreases n,
{
    if n < 10 {
        dec_digit_str(n).to_owned()
    } else {
        let high = u64_dec(n / 10);
        high.concat(dec_digit_str(n % 10))
    }
}

/// Renders `n` in decimal.
pub fn u128_dec(n: u128) -> (r: String)
    ensures
        r@ == spec_udec(n as nat),
    decreases n,
{
    if n < 10 {
        dec_digit_str(n as u64).to_owned()
    } else {
        let high = u128_dec(n / 10);
        high.concat(dec_digit_str((n % 10) as u64))
    }
}

/// Renders `n` in decimal, with a leading `-` when negative.
pub fn i64_dec(n: i64) -> (r: String)
    ensures
        r@ == spec_idec(n as int),
{
    if n >= 0 {
        u64_dec(n as u64)
    } else {
        let magnitude: u64 = ((-(n + 1)) as u64) + 1;
        proof {
            assert(magnitude as int == -(n as int));
            reveal_strlit("-");
            assert("-"@ =~= seq!['-']);
        }
        let sign = String::from_str("-");
        sign.concat(u64_dec(magnitude).as_str())
    }
}

/// Renders the lowest `width` hexadecimal digits of `n`, zero-padded.
pub fn hex_fixed_u128(n: u128, width: usize) -> (r: String)
    ensures
        r@ == spec_hex_fixed(n as nat, width as nat),
    decreases width,
{
    if width == 0 {
        String::new()
    } else {
        let high = hex_fixed_u128(n / 16, width - 1);
        high.concat(hex_digit_str((n % 16) as u64))
    }
}

/// Renders `n` as exactly 16 lower-case hexadecimal digits.
pub fn hex16_u64(n: u64) -> (r: String)
    ensures
        r@ == spec_hex_fixed(n as nat, 16),
{
    hex_fixed_u128(n as u128, 16)
}

/// Renders `n` as exactly 32 lower-case hexadecimal digits.
pub fn hex32_u128(n: u128) -> (r: String)
    ensures
        r@ == spec_hex_fixed(n as nat, 32),
{
    hex_fixed_u128(n, 32)
}

/// Relies on `String::push`: appends the given character to the string.
#[verifier::external_body]
pub(crate) fn push_char(s: &mut String, c: char)
    ensures
        final(s)@ == old(s)@ + seq![c],
{
    s.push(c);
}

/// Builds a string of `k` copies of `c`.
pub fn repeat_char(c: char, k: usize) -> (r: String)
    ensures
        r@ == char_repeat(c, k as nat),
    decreases k,
{
    if k == 0 {
        String::new()
    } else {
        let mut s = repeat_char(c, k - 1);
        push_char(&mut s, c);
        s
    }
}

/// Pads `s` on the left with `c` up to `width` characters.
pub fn pad_left(s: &str, c: char, width: usize) -> (r: String)
    ensures
        r@ == spec_pad_left(s@, c, width as nat),
{
    let n = s.unicode_len();
    if n >= width {
        s.to_owned()
    } else {
        let pad = repeat_char(c, width - n);
        pad.concat(s)
    }
}

/// Why parsing an integer failed, mirroring the distinctions the standard
/// library's integer parser draws.
#[derive(Clone, Copy, Debug, PartialEq, Eq, Structural)]
pub enum IntParseError {
    /// The digit string was empty.
    Empty,
    /// A character was not a digit of the radix (or a stray sign).
    InvalidDigit,
    /// The value does not fit in the target type.
    PosOverflow,
}

/// Whether `c` is a hexadecimal digit (either case).
pub open spec fn is_hex_char(c: char) -> bool {
    ('0' as int <= c as int && c as int <= '9' as int) || ('a' as int <= c as int && c as int
        <= 'f' as int) || ('A' as int <= c as int && c as int <= 'F' as int)
}

/// The numeric value of the hexadecimal digit `c`.
pub open spec fn hex_char_val(c: char) -> int {
    if '0' as int <= c as int && c as int <= '9' as int {
        c as int - '0' as int
    } else if 'a' as int <= c as int && c as int <= 'f' as int {
        c as int - 'a' as int + 10
    } else {
        c as int - 'A' as int + 10
    }
}

/// Value of the digits of `s` from position `i` on, given the value `acc`
/// of the digits already read: the first non-digit stops with
/// `InvalidDigit`, a value above `u64::MAX` with `PosOverflow`.
pub open spec fn spec_parse_hex_digits(s: Seq<char>, i: int, acc: nat) -> Result<
    u64,
    IntParseError,
>
    decreases s.len() - i,
{
    if i < 0 || i >= s.len() {
        if acc <= u64::MAX {
            Ok(acc as u64)
        } else {
            Err(IntParseError::PosOverflow)
        }
    } else if !is_hex_char(s[i]) {
        Err(IntParseError::InvalidDigit)
    } else if acc * 16 + hex_char_val(s[i]) > u64::MAX {
        Err(IntParseError::PosOverflow)
    } else {
        spec_parse_hex_digits(s, i + 1, (acc * 16 + hex_char_val(s[i])) as nat)
    }
}

/// The result of `u64::from_str_radix(s, 16)`: an optional leading `+`,
/// then at least one hexadecimal digit, value at most `u64::MAX`.
pub open spec fn spec_from_str_hex(s: Seq<char>) -> Result<u64, IntParseError> {
    if s.len() == 0 {
        Err(IntParseError::Empty)
    } else if s[0] == '+' {
        if s.len() == 1 {
            Err(IntParseError::InvalidDigit)
        } else {
            spec_parse_hex_digits(s, 1, 0)
        }
    } else {
        spec_parse_hex_digits(s, 0, 0)
    }
}

/// The result of parsing `s` as a hexadecimal `u64` after stripping one
/// optional `0x` prefix.
pub open spec fn spec_parse_hex_u64(s: Seq<char>) -> Result<u64, IntParseError> {
    if spec_starts_with(s, "0x"@) {
        spec_from_str_hex(s.subrange(2, s.len() as int))
    } else {
        spec_from_str_hex(s)
    }
}

fn hex_digit_value(c: char) -> (r: Option<u64>)
    ensures
        r is Some <==> is_hex_char(c),
        r matches Some(v) ==> v == hex_char_val(c) && v < 16,
{
    let code: u32 = c as u32;
    if code >= '0' as u32 && code <= '9' as u32 {
        Some((code - '0' as u32) as u64)
    } else if code >= 'a' as u32 && code <= 'f' as u32 {
        Some((code - 'a' as u32) as u64 + 10)
    } else if code >= 'A' as u32 && code <= 'F' as u32 {
        Some((code - 'A' as u32) as u64 + 10)
    } else {
        None
    }
}

fn parse_hex_digits(s: &str, i: usize, acc: u64) -> (r: Result<u64, IntParseError>)
    requires
        i <= s@.len(),
    ensures
        r == spec_parse_hex_digits(s@, i as int, acc as nat),
    decreases s@.len() - i,
{
    if i == s.unicode_len() {
        Ok(acc)
    } else {
        let c = s.get_char(i);
        match hex_digit_value(c) {
            None => Err(IntParseError::InvalidDigit),
            Some(d) => {
                match acc.checked_mul(16) {
                    None => Err(IntParseError::PosOverflow),
                    Some(m) => {
                        match m.checked_add(d) {
                            None => Err(IntParseError::PosOverflow),
                            Some(next) => parse_hex_digits(s, i + 1, next),
                        }
                    },
                }
            },
        }
    }
}

/// Parses `src` as a hexadecimal `u64`, accepting and stripping one
/// optional `0x` prefix, with the standard library's acceptance rules for
/// radix-16 integers.
pub fn parse_hex_u64(src: &str) -> (r: Result<u64, IntParseError>)
    ensures
        r == spec_parse_hex_u64(src@),
{
    proof {
        reveal_strlit("0x");
    }
    let digits: &str = if starts_with(src, "0x") {
        src.substring_char(2, src.unicode_len())
    } else {
        src
    };
    let n = digits.unicode_len();
    if n == 0 {
        Err(IntParseError::Empty)
    } else if digits.get_char(0) == '+' {
        if n == 1 {
            Err(IntParseError::InvalidDigit)
        } else {
            parse_hex_digits(digits, 1, 0)
        }
    } else {
        parse_hex_digits(digits, 0, 0)
    }
}

/// Whether `a` and `b` hold the same characters.
pub fn str_eq(a: &str, b: &str) -> (r: bool)
    ensures
        r <==> a@ == b@,
{
    let n = a.unicode_len();
    if n != b.unicode_len() {
        return false;
    }
    let mut i: usize = 0;
    while i < n
        invariant
            n == a@.len(),
            n == b@.len(),
            i <= n,
            forall|k: int| 0 <= k < i ==> a@[k] == b@[k],
        decreases n - i,
    {
        if a.get_char(i) != b.get_char(i) {
            return false;
        }
        i += 1;
    }
    proof {
        assert(a@ =~= b@);
    }
    true
}

/// Whether the characters of `p` begin the characters of `s`.
pub fn starts_with(s: &str, p: &str) -> (r: bool)
    ensures
        r <==> spec_starts_with(s@, p@),
{
    let n = p.unicode_len();
    if n > s.unicode_len() {
        return false;
    }
    let mut i: usize = 0;
    while i < n
        invariant
            n == p@.len(),
            n <= s@.len(),
            i <= n,
            forall|k: int| 0 <= k < i ==> s@[k] == p@[k],
        decreases n - i,
    {
        if s.get_char(i) != p.get_char(i) {
            return false;
        }
        i += 1;
    }
    proof {
        assert(s@.subrange(0, p@.len() as int) =~= p@);
    }
    true
}

} // verus!
