//! Text primitives shared by every stage: reading a `&str` as characters,
//! numeric literals in decimal and hexadecimal notation, and the decimal
//! rendering of integers.
//!
//! Each executable function is proved against a spec function over
//! `Seq<char>`, so the stages built on top can state what they emit
//! character by character.

use vstd::prelude::*;

verus! {

/// `String::push` of the standard library: the pushed character is
/// appended at the end and nothing else changes.
pub assume_specification[ std::string::String::push ](s: &mut std::string::String, ch: char)
    ensures
        final(s)@ == old(s)@.push(ch),
;

/// `==` on `str` of the standard library: two string slices are equal
/// exactly when they hold the same characters.
pub assume_specification[ <str as PartialEq>::eq ](a: &str, b: &str) -> (r: bool)
    ensures
        r == (a@ == b@),
;

/// The texts of a list of strings, in order.
pub open spec fn texts(names: Seq<String>) -> Seq<Seq<char>> {
    names.map_values(|s: String| s@)
}

/// The characters of `s`, in order.
pub fn chars_of(s: &str) -> (r: Vec<char>)
    ensures
        r@ == s@,
{
    let mut out: Vec<char> = Vec::new();
    for c in it: s.chars()
        invariant
            out@ == it.seq().take(it.index() as int),
            it.seq() == s@,
    {
        out.push(c);
    }
    out
}

/// Appends `part` to `out`.
pub fn push_text(out: &mut String, part: &str)
    ensures
        final(out)@ == old(out)@ + part@,
{
    let cs = chars_of(part);
    let n = cs.len();
    let mut i: usize = 0;
    while i < n
        invariant
            i <= n,
            n == cs.len(),
            cs@ == part@,
            out@ == old(out)@ + part@.take(i as int),
        decreases n - i,
    {
        out.push(cs[i]);
        i += 1;
        assert(part@.take(i as int) == part@.take(i - 1).push(part@[i - 1]));
    }
    assert(part@.take(n as int) == part@);
}

// ---------------------------------------------------------------------
// Digits
// ---------------------------------------------------------------------

/// The value of `c` read as a digit in base `radix` (10 or 16), if it is one.
/// Hexadecimal letters count in both cases.
pub open spec fn digit_of(c: char, radix: int) -> Option<int> {
    if '0' <= c && c <= '9' {
        Some(c as int - '0' as int)
    } else if radix == 16 && 'a' <= c && c <= 'f' {
        Some(c as int - 'a' as int + 10)
    } else if radix == 16 && 'A' <= c && c <= 'F' {
        Some(c as int - 'A' as int + 10)
    } else {
        None
    }
}

/// Every character of `s` is a digit in base `radix`.
pub open spec fn all_digits(s: Seq<char>, radix: int) -> bool {
    forall|i: int| 0 <= i < s.len() ==> (#[trigger] digit_of(s[i], radix)) is Some
}

/// The number that the digit string `s` denotes in base `radix`, most
/// significant digit first. A character that is no digit counts as zero.
pub open spec fn digits_value(s: Seq<char>, radix: int) -> int
    decreases s.len(),
{
    if s.len() == 0 {
        0
    } else {
        let d = match digit_of(s.last(), radix) {
            Some(d) => d,
            None => 0,
        };
        digits_value(s.drop_last(), radix) * radix + d
    }
}

/// What an unsigned digit string denotes when it must not pass `limit`:
/// `Some(v)` exactly when `s` is a non-empty run of digits in base `radix`
/// whose value `v` is at most `limit`.
pub open spec fn magnitude(s: Seq<char>, radix: int, limit: int) -> Option<int> {
    if s.len() > 0 && all_digits(s, radix) && digits_value(s, radix) <= limit {
        Some(digits_value(s, radix))
    } else {
        None
    }
}

/// A digit string is worth at least as much as each of its prefixes.
pub proof fn lemma_prefix_value_le(s: Seq<char>, radix: int, k: int)
    requires
        radix == 10 || radix == 16,
        0 <= k <= s.len(),
    ensures
        0 <= digits_value(s.take(k), radix) <= digits_value(s, radix),
    decreases s.len(),
{
    if s.len() == 0 {
        assert(s.take(k) == s);
    } else if k == s.len() {
        assert(s.take(k) == s);
        lemma_prefix_value_le(s.drop_last(), radix, k - 1);
        assert(s.drop_last().take(k - 1) == s.drop_last());
    } else {
        lemma_prefix_value_le(s.drop_last(), radix, k);
        assert(s.drop_last().take(k) == s.take(k));
        assert(digits_value(s.drop_last(), radix) * radix >= digits_value(s.drop_last(), radix))
            by (nonlinear_arith)
            requires
                digits_value(s.drop_last(), radix) >= 0,
                radix >= 1,
        ;
    }
}

fn digit_at(c: char, radix: u64) -> (r: Option<u64>)
    requires
        radix == 10 || radix == 16,
    ensures
        r is Some <==> digit_of(c, radix as int) is Some,
        r is Some ==> r->0 == digit_of(c, radix as int)->0 && r->0 < radix,
{
    if '0' <= c && c <= '9' {
        Some((c as u32 - '0' as u32) as u64)
    } else if radix == 16 && 'a' <= c && c <= 'f' {
        Some((c as u32 - 'a' as u32 + 10) as u64)
    } else if radix == 16 && 'A' <= c && c <= 'F' {
        Some((c as u32 - 'A' as u32 + 10) as u64)
    } else {
        None
    }
}

/// Reads the characters of `cs` from position `start` on as an unsigned
/// number in base `radix` that must not pass `limit`.
pub fn parse_magnitude(cs: &Vec<char>, start: usize, radix: u64, limit: u64) -> (r: Option<u64>)
    requires
        radix == 10 || radix == 16,
        start <= cs.len(),
    ensures
        r is Some <==> magnitude(cs@.skip(start as int), radix as int, limit as int) is Some,
        r is Some ==> r->0 == magnitude(cs@.skip(start as int), radix as int, limit as int)->0,
{
    let n = cs.len();
    let ghost body = cs@.skip(start as int);
    if start == n {
        return None;
    }
    let mut acc: u64 = 0;
    let mut i: usize = start;
    while i < n
        invariant
            start <= i <= n,
            n == cs.len(),
            radix == 10 || radix == 16,
            body == cs@.skip(start as int),
            all_digits(body.take(i - start), radix as int),
            acc == digits_value(body.take(i - start), radix as int),
            acc <= limit,
        decreases n - i,
    {
        let ghost pre = body.take(i - start);
        let ghost cur = body.take(i - start + 1);
        proof {
            assert(cur.drop_last() == pre);
            assert(cur.last() == cs@[i as int]);
            lemma_prefix_value_le(body, radix as int, i - start + 1);
        }
        let d = match digit_at(cs[i], radix) {
            Some(d) => d,
            None => {
                assert(digit_of(body[i - start], radix as int) is None);
                return None;
            },
        };
        let shifted = match acc.checked_mul(radix) {
            Some(v) => v,
            None => {
                return None;
            },
        };
        let next = match shifted.checked_add(d) {
            Some(v) => v,
            None => {
                return None;
            },
        };
        if next > limit {
            return None;
        }
        acc = next;
        i += 1;
        proof {
            assert forall|j: int| 0 <= j < cur.len() implies (#[trigger] digit_of(
                cur[j],
                radix as int,
            )) is Some by {
                if j < pre.len() {
                    assert(cur[j] == pre[j]);
                }
            }
        }
    }
    assert(body.take(n - start) == body);
    Some(acc)
}

// ---------------------------------------------------------------------
// Literals
// ---------------------------------------------------------------------

/// The digits of `s` behind an optional leading `+`.
pub open spec fn unsigned_body(s: Seq<char>) -> Seq<char> {
    if s.len() > 0 && s[0] == '+' {
        s.skip(1)
    } else {
        s
    }
}

/// The digits of `s` behind an optional leading `+` or `-`.
pub open spec fn signed_body(s: Seq<char>) -> Seq<char> {
    if s.len() > 0 && (s[0] == '+' || s[0] == '-') {
        s.skip(1)
    } else {
        s
    }
}

/// `s` read as a signed 64-bit decimal number: an optional sign, then one
/// or more decimal digits and nothing else, with a value that fits.
pub open spec fn decimal_i64(s: Seq<char>) -> Option<i64> {
    let body = signed_body(s);
    if s.len() > 0 && s[0] == '-' {
        match magnitude(body, 10, 0x8000_0000_0000_0000) {
            Some(m) => Some((-m) as i64),
            None => None,
        }
    } else {
        match magnitude(body, 10, 0x7fff_ffff_ffff_ffff) {
            Some(m) => Some(m as i64),
            None => None,
        }
    }
}

/// The quotient of `a` by `b`, rounded towards zero (`b` is not zero).
pub open spec fn trunc_div(a: int, b: int) -> int {
    if a == 0 {
        0
    } else if a > 0 && b > 0 {
        a / b
    } else if a < 0 && b < 0 {
        (a * -1) / (b * -1)
    } else if a < 0 {
        ((a * -1) / b) * -1
    } else {
        (a / (b * -1)) * -1
    }
}

/// `s` read as a signed 32-bit decimal number: as for 64 bits, with a
/// value that fits 32.
pub open spec fn decimal_i32(s: Seq<char>) -> Option<i32> {
    match decimal_i64(s) {
        Some(v) => if i32::MIN <= v <= i32::MAX {
            Some(v as i32)
        } else {
            None
        },
        None => None,
    }
}

/// `s` read as an unsigned decimal count: an optional `+`, then one or
/// more decimal digits and nothing else, with a value that fits `usize`.
pub open spec fn decimal_usize(s: Seq<char>) -> Option<usize> {
    match magnitude(unsigned_body(s), 10, usize::MAX as int) {
        Some(m) => Some(m as usize),
        None => None,
    }
}

/// `s` read as an unsigned 32-bit decimal number: an optional `+`, then
/// one or more decimal digits and nothing else, with a value that fits.
pub open spec fn decimal_u32(s: Seq<char>) -> Option<u32> {
    match magnitude(unsigned_body(s), 10, u32::MAX as int) {
        Some(m) => Some(m as u32),
        None => None,
    }
}

/// `s` is a decimal literal: it reads as a signed 64-bit number.
pub open spec fn is_decimal_text(s: Seq<char>) -> bool {
    decimal_i64(s) is Some
}

/// `s` is a hexadecimal literal: `0x` or `0X`, then an optional `+` and
/// one or more hexadecimal digits whose value fits 64 bits unsigned.
pub open spec fn is_hexadecimal_text(s: Seq<char>) -> bool {
    &&& s.len() >= 2
    &&& s[0] == '0'
    &&& (s[1] == 'x' || s[1] == 'X')
    &&& magnitude(unsigned_body(s.skip(2)), 16, u64::MAX as int) is Some
}

/// `s` is a literal operand, decimal or hexadecimal, and no name.
pub open spec fn is_literal_text(s: Seq<char>) -> bool {
    is_decimal_text(s) || is_hexadecimal_text(s)
}

/// Reads `s` as a signed 64-bit decimal number.
pub fn parse_i64(s: &str) -> (r: Option<i64>)
    ensures
        r == decimal_i64(s@),
{
    let cs = chars_of(s);
    if cs.len() == 0 {
        assert(signed_body(s@) == s@);
        return None;
    }
    let negative = cs[0] == '-';
    let start: usize = if cs[0] == '-' || cs[0] == '+' {
        1
    } else {
        0
    };
    assert(cs@.skip(start as int) == signed_body(s@)) by {
        if start == 0 {
            assert(cs@.skip(0) == cs@);
        }
    }
    if negative {
        match parse_magnitude(&cs, start, 10, 0x8000_0000_0000_0000) {
            Some(m) => {
                if m == 0x8000_0000_0000_0000 {
                    Some(i64::MIN)
                } else {
                    Some(-(m as i64))
                }
            },
            None => None,
        }
    } else {
        match parse_magnitude(&cs, start, 10, 0x7fff_ffff_ffff_ffff) {
            Some(m) => Some(m as i64),
            None => None,
        }
    }
}

/// Reads `s` as a signed 32-bit decimal number.
pub fn parse_i32(s: &str) -> (r: Option<i32>)
    ensures
        r == decimal_i32(s@),
{
    match parse_i64(s) {
        Some(v) => {
            if -0x8000_0000 <= v && v <= 0x7fff_ffff {
                Some(v as i32)
            } else {
                None
            }
        },
        None => None,
    }
}

/// Reads `s` as an unsigned decimal count.
pub fn parse_usize(s: &str) -> (r: Option<usize>)
    ensures
        r == decimal_usize(s@),
{
    let cs = chars_of(s);
    let start: usize = if cs.len() > 0 && cs[0] == '+' {
        1
    } else {
        0
    };
    assert(cs@.skip(start as int) == unsigned_body(s@)) by {
        if start == 0 {
            assert(cs@.skip(0) == cs@);
        }
    }
    match parse_magnitude(&cs, start, 10, usize::MAX as u64) {
        Some(m) => Some(m as usize),
        None => None,
    }
}

/// Reads `s` as an unsigned 32-bit decimal number.
pub fn parse_u32(s: &str) -> (r: Option<u32>)
    ensures
        r == decimal_u32(s@),
{
    let cs = chars_of(s);
    let start: usize = if cs.len() > 0 && cs[0] == '+' {
        1
    } else {
        0
    };
    assert(cs@.skip(start as int) == unsigned_body(s@)) by {
        if start == 0 {
            assert(cs@.skip(0) == cs@);
        }
    }
    match parse_magnitude(&cs, start, 10, 0xffff_ffff) {
        Some(m) => Some(m as u32),
        None => None,
    }
}

/// Whether `s` is a decimal literal.
pub fn is_decimal(s: &str) -> (r: bool)
    ensures
        r == is_decimal_text(s@),
{
    parse_i64(s).is_some()
}

/// Whether `s` is a hexadecimal literal.
pub fn is_hexadecimal(s: &str) -> (r: bool)
    ensures
        r == is_hexadecimal_text(s@),
{
    let cs = chars_of(s);
    if cs.len() < 2 {
        return false;
    }
    if cs[0] != '0' || (cs[1] != 'x' && cs[1] != 'X') {
        return false;
    }
    let start: usize = if cs.len() > 2 && cs[2] == '+' {
        3
    } else {
        2
    };
    assert(cs@.skip(start as int) == unsigned_body(s@.skip(2))) by {
        if start == 3 {
            assert(s@.skip(2).skip(1) == s@.skip(3));
        }
    }
    parse_magnitude(&cs, start, 16, u64::MAX).is_some()
}

/// Whether `s` is a literal operand, decimal or hexadecimal.
pub fn is_literal(s: &str) -> (r: bool)
    ensures
        r == is_literal_text(s@),
{
    is_decimal(s) || is_hexadecimal(s)
}

// ---------------------------------------------------------------------
// Decimal rendering
// ---------------------------------------------------------------------

/// The character of the decimal digit `d`.
pub open spec fn digit_char(d: int) -> char {
    if d == 0 {
        '0'
    } else if d == 1 {
        '1'
    } else if d == 2 {
        '2'
    } else if d == 3 {
        '3'
    } else if d == 4 {
        '4'
    } else if d == 5 {
        '5'
    } else if d == 6 {
        '6'
    } else if d == 7 {
        '7'
    } else if d == 8 {
        '8'
    } else {
        '9'
    }
}

/// The decimal digits of `n`, without leading zeros; `0` is one digit.
pub open spec fn nat_text(n: nat) -> Seq<char>
    decreases n,
{
    if n < 10 {
        seq![digit_char(n as int)]
    } else {
        nat_text(n / 10).push(digit_char((n % 10) as int))
    }
}

/// The decimal text of `v`: a `-` for a negative number, then its digits.
pub open spec fn int_text(v: int) -> Seq<char> {
    if v < 0 {
        seq!['-'] + nat_text((-v) as nat)
    } else {
        nat_text(v as nat)
    }
}

fn digit_to_char(d: u8) -> (c: char)
    requires
        d < 10,
    ensures
        c == digit_char(d as int),
{
    if d == 0 {
        '0'
    } else if d == 1 {
        '1'
    } else if d == 2 {
        '2'
    } else if d == 3 {
        '3'
    } else if d == 4 {
        '4'
    } else if d == 5 {
        '5'
    } else if d == 6 {
        '6'
    } else if d == 7 {
        '7'
    } else if d == 8 {
        '8'
    } else {
        '9'
    }
}

/// Appends the decimal digits of `n` to `out`.
pub fn push_nat(out: &mut String, n: u128)
    ensures
        final(out)@ == old(out)@ + nat_text(n as nat),
    decreases n,
{
    if n >= 10 {
        push_nat(out, n / 10);
    }
    out.push(digit_to_char((n % 10) as u8));
    proof {
        if n >= 10 {
            assert(old(out)@ + nat_text((n / 10) as nat).push(digit_char((n % 10) as int)) == (
            old(out)@ + nat_text((n / 10) as nat)).push(digit_char((n % 10) as int)));
        } else {
            assert(old(out)@ + seq![digit_char(n as int)] == old(out)@.push(digit_char(n as int)));
        }
    }
}

/// The decimal text of the count `n`.
pub fn nat_to_string(n: u128) -> (r: String)
    ensures
        r@ == nat_text(n as nat),
{
    let mut out = String::new();
    push_nat(&mut out, n);
    assert(Seq::<char>::empty() + nat_text(n as nat) == nat_text(n as nat));
    out
}

/// The character `prefix`, then the decimal text of the count `n`.
pub fn numbered(prefix: char, n: u128) -> (r: String)
    ensures
        r@ == seq![prefix] + nat_text(n as nat),
{
    let mut out = String::new();
    out.push(prefix);
    push_nat(&mut out, n);
    assert(Seq::<char>::empty().push(prefix) == seq![prefix]);
    out
}

/// The decimal text of the signed number `v`.
pub fn i64_to_string(v: i64) -> (r: String)
    ensures
        r@ == int_text(v as int),
{
    let mut out = String::new();
    if v < 0 {
        out.push('-');
        let m: u128 = if v == i64::MIN {
            0x8000_0000_0000_0000
        } else {
            (-v) as u128
        };
        push_nat(&mut out, m);
        assert(Seq::<char>::empty().push('-') == seq!['-']);
    } else {
        push_nat(&mut out, v as u128);
        assert(Seq::<char>::empty() + nat_text(v as nat) == nat_text(v as nat));
    }
    out
}

// ---------------------------------------------------------------------
// Rendering and reading agree
// ---------------------------------------------------------------------

/// The decimal text of a count is a run of decimal digits that denotes
/// the count.
pub proof fn lemma_nat_text_reads_back(n: nat)
    ensures
        nat_text(n).len() > 0,
        all_digits(nat_text(n), 10),
        digits_value(nat_text(n), 10) == n,
        digit_of(nat_text(n)[0], 10) is Some,
    decreases n,
{
    if n < 10 {
        let s = nat_text(n);
        assert(s.len() == 1);
        assert(digit_of(s[0], 10) == Some(n as int));
        assert(s.drop_last().len() == 0);
        assert(digits_value(s.drop_last(), 10) == 0);
    } else {
        lemma_nat_text_reads_back(n / 10);
        let head = nat_text(n / 10);
        let s = nat_text(n);
        assert(s == head.push(digit_char((n % 10) as int)));
        assert(s.drop_last() == head);
        assert(digit_of(s.last(), 10) == Some((n % 10) as int));
        assert(s[0] == head[0]);
        assert forall|i: int| 0 <= i < s.len() implies (#[trigger] digit_of(s[i], 10)) is Some by {
            if i < head.len() {
                assert(s[i] == head[i]);
            }
        }
    }
}

/// The decimal text of a signed 64-bit number reads as that number:
/// what folding writes, propagation can read again.
pub proof fn law_rendering_reads_back(v: i64)
    ensures
        decimal_i64(int_text(v as int)) == Some(v),
{
    let s = int_text(v as int);
    if v < 0 {
        let m = (-(v as int)) as nat;
        lemma_nat_text_reads_back(m);
        assert(s[0] == '-');
        assert(s.skip(1) =~= nat_text(m));
        assert(signed_body(s) == nat_text(m));
    } else {
        lemma_nat_text_reads_back(v as nat);
        assert(s[0] != '-' && s[0] != '+');
        assert(signed_body(s) == s);
    }
}

} // verus!
