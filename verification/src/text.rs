//! Text: the characters of a string, substrings, and decimal numbers as the
//! ledger and the file names write and read them.
use vstd::prelude::*;

verus! {

/// `String::push` appends the character to the end of the string.
pub assume_specification[ String::push ](s: &mut String, c: char)
    ensures
        final(s)@ == old(s)@.push(c),
;

/// The character of one decimal digit.
pub open spec fn digit_char(d: int) -> char {
    if d == 0 {
        '0'
    } else if d == 1 {
        '1'
    } else if d == 2 {
        '2'
    } else if d == 3 {
        '3'
    } else if d == 4 {
        '4'
    } else if d == 5 {
        '5'
    } else if d == 6 {
        '6'
    } else if d == 7 {
        '7'
    } else if d == 8 {
        '8'
    } else {
        '9'
    }
}

/// The value of a decimal digit, `None` for any other character.
pub open spec fn digit_value(c: char) -> Option<int> {
    if c == '0' {
        Some(0)
    } else if c == '1' {
        Some(1)
    } else if c == '2' {
        Some(2)
    } else if c == '3' {
        Some(3)
    } else if c == '4' {
        Some(4)
    } else if c == '5' {
        Some(5)
    } else if c == '6' {
        Some(6)
    } else if c == '7' {
        Some(7)
    } else if c == '8' {
        Some(8)
    } else if c == '9' {
        Some(9)
    } else {
        None
    }
}

/// The decimal digits of `n`, without leading zeros.
pub open spec fn decimal(n: nat) -> Seq<char>
    decreases n,
{
    if n < 10 {
        seq![digit_char(n as int)]
    } else {
        decimal(n / 10).push(digit_char((n % 10) as int))
    }
}

/// `k` zeros.
pub open spec fn zeros(k: nat) -> Seq<char> {
    Seq::new(k, |i: int| '0')
}

/// The decimal digits of `n`, filled with leading zeros to `width`
/// characters; a number with more digits is written in full.
pub open spec fn padded(n: nat, width: nat) -> Seq<char> {
    let digits = decimal(n);
    if digits.len() >= width {
        digits
    } else {
        zeros((width - digits.len()) as nat) + digits
    }
}

/// A signed number filled to `width` characters: the sign of a negative
/// number comes first and counts towards the width.
pub open spec fn signed_padded(n: int, width: nat) -> Seq<char> {
    if n < 0 {
        seq!['-'] + padded((-n) as nat, if width > 0 { (width - 1) as nat } else { 0 })
    } else {
        padded(n as nat, width)
    }
}

fn digit(d: u64) -> (c: char)
    requires
        d < 10,
    ensures
        c == digit_char(d as int),
{
    if d == 0 {
        '0'
    } else if d == 1 {
        '1'
    } else if d == 2 {
        '2'
    } else if d == 3 {
        '3'
    } else if d == 4 {
        '4'
    } else if d == 5 {
        '5'
    } else if d == 6 {
        '6'
    } else if d == 7 {
        '7'
    } else if d == 8 {
        '8'
    } else {
        '9'
    }
}

fn count_digits(n: u64) -> (len: usize)
    ensures
        len == decimal(n as nat).len(),
        1 <= len <= 20,
    decreases n,
{
    if n < 10 {
        1
    } else {
        let rest = count_digits(n / 10);
        proof {
            decimal_length(n as nat);
        }
        rest + 1
    }
}

/// A number below `10^k` has at most `k` digits; a `u64` has at most 20.
proof fn decimal_length(n: nat)
    ensures
        n < 10 ==> decimal(n).len() == 1,
        n >= 10 ==> decimal(n).len() == decimal(n / 10).len() + 1,
        n <= u64::MAX ==> decimal(n).len() <= 20,
{
    if n <= u64::MAX {
        reveal_with_fuel(decimal, 21);
        assert(decimal(n).len() <= 20);
    }
}

/// Appends the decimal digits of `n`.
pub fn push_decimal(out: &mut String, n: u64)
    ensures
        final(out)@ == old(out)@ + decimal(n as nat),
    decreases n,
{
    if n >= 10 {
        push_decimal(out, n / 10);
    }
    out.push(digit(n % 10));
    assert(out@ =~= old(out)@ + decimal(n as nat));
}

/// Appends `n` filled with leading zeros to `width` characters.
pub fn push_padded(out: &mut String, n: u64, width: usize)
    ensures
        final(out)@ == old(out)@ + padded(n as nat, width as nat),
{
    let len = count_digits(n);
    let mut k: usize = len;
    while k < width
        invariant
            len <= k,
            len == decimal(n as nat).len(),
            k == len || k <= width,
            out@ == old(out)@ + zeros((k - len) as nat),
        decreases width - k,
    {
        out.push('0');
        k += 1;
        assert(out@ =~= old(out)@ + zeros((k - len) as nat));
    }
    push_decimal(out, n);
    proof {
        let fill = zeros((k - len) as nat);
        let digits = decimal(n as nat);
        assert(fill + digits =~= padded(n as nat, width as nat));
        assert(out@ =~= old(out)@ + (fill + digits));
    }
}

/// Appends a signed number filled to `width` characters.
pub fn push_signed(out: &mut String, n: i32, width: usize)
    ensures
        final(out)@ == old(out)@ + signed_padded(n as int, width as nat),
{
    if n < 0 {
        out.push('-');
        let magnitude: u64 = (-(n as i64)) as u64;
        push_padded(out, magnitude, if width > 0 { width - 1 } else { 0 });
        assert(out@ =~= old(out)@ + signed_padded(n as int, width as nat));
    } else {
        push_padded(out, n as u64, width);
    }
}

/// The characters of a string, one by one.
pub fn to_chars(s: &str) -> (chars: Vec<char>)
    ensures
        chars@ == s@,
{
    broadcast use vstd::string::group_string_axioms;
    let mut chars: Vec<char> = Vec::new();
    for c in it: s.chars()
        invariant
            it.seq() == s@,
            chars@ == it.seq().take(it.index()),
    {
        chars.push(c);
        assert(chars@ =~= it.seq().take(it.index() + 1));
    }
    assert(chars@ =~= s@);
    chars
}

/// The number that a run of decimal digits writes; `None` for an empty run
/// and for one that holds anything but digits.
pub open spec fn digits_value(s: Seq<char>) -> Option<nat>
    decreases s.len(),
{
    if s.len() == 0 {
        None
    } else {
        match digit_value(s.last()) {
            None => None,
            Some(d) => if s.len() == 1 {
                Some(d as nat)
            } else {
                match digits_value(s.drop_last()) {
                    None => None,
                    Some(v) => Some(v * 10 + d as nat),
                }
            },
        }
    }
}

/// The integer that a text writes: decimal digits, after one optional sign.
pub open spec fn parse_int(s: Seq<char>) -> Option<int> {
    if s.len() > 0 && s[0] == '-' {
        match digits_value(s.skip(1)) {
            Some(v) => Some(-(v as int)),
            None => None,
        }
    } else if s.len() > 0 && s[0] == '+' {
        match digits_value(s.skip(1)) {
            Some(v) => Some(v as int),
            None => None,
        }
    } else {
        match digits_value(s) {
            Some(v) => Some(v as int),
            None => None,
        }
    }
}

/// What parsing a text as an `i32` gives: its integer, where it has one and
/// an `i32` holds it.
pub open spec fn parse_i32_spec(s: Seq<char>) -> Option<i32> {
    match parse_int(s) {
        Some(v) => if i32::MIN <= v <= i32::MAX {
            Some(v as i32)
        } else {
            None
        },
        None => None,
    }
}

/// A run of zeros writes zero.
proof fn zeros_read_back(k: nat)
    requires
        k >= 1,
    ensures
        digits_value(zeros(k)) == Some(0nat),
    decreases k,
{
    if k > 1 {
        zeros_read_back((k - 1) as nat);
        assert(zeros(k).drop_last() =~= zeros((k - 1) as nat));
    }
}

/// The digits of a number, behind any run of zeros, write that number.
proof fn digits_read_back(n: nat, k: nat)
    ensures
        digits_value(zeros(k) + decimal(n)) == Some(n),
        digit_value((zeros(k) + decimal(n))[0]) is Some,
    decreases n,
{
    let s = zeros(k) + decimal(n);
    if n < 10 {
        assert(s =~= zeros(k).push(digit_char(n as int)));
        assert(s.drop_last() =~= zeros(k));
        if k > 0 {
            zeros_read_back(k);
        }
    } else {
        digits_read_back(n / 10, k);
        let init = zeros(k) + decimal(n / 10);
        assert(s =~= init.push(digit_char((n % 10) as int)));
        assert(s.drop_last() =~= init);
        assert(s[0] == init[0]);
    }
}

/// A number that is written with `padded` reads back as itself.
pub proof fn padded_reads_back(n: nat, width: nat)
    ensures
        digits_value(padded(n, width)) == Some(n),
        parse_int(padded(n, width)) == Some(n as int),
{
    let digits = decimal(n);
    if digits.len() >= width {
        digits_read_back(n, 0);
        assert(zeros(0) + digits =~= digits);
    } else {
        digits_read_back(n, (width - digits.len()) as nat);
    }
}

/// A number that is written with `signed_padded` reads back as itself:
/// what the ledger and the checkpoint names write, they read.
pub proof fn signed_reads_back(n: int, width: nat)
    ensures
        parse_int(signed_padded(n, width)) == Some(n),
{
    if n < 0 {
        let rest = padded((-n) as nat, if width > 0 { (width - 1) as nat } else { 0 });
        padded_reads_back((-n) as nat, if width > 0 { (width - 1) as nat } else { 0 });
        let s = seq!['-'] + rest;
        assert(s.skip(1) =~= rest);
        assert(s[0] == '-');
    } else {
        padded_reads_back(n as nat, width);
    }
}

/// The value of a decimal digit.
pub fn digit_of(c: char) -> (d: Option<u8>)
    ensures
        d is Some == digit_value(c) is Some,
        d matches Some(v) ==> digit_value(c) == Some(v as int) && v < 10,
{
    if c == '0' {
        Some(0)
    } else if c == '1' {
        Some(1)
    } else if c == '2' {
        Some(2)
    } else if c == '3' {
        Some(3)
    } else if c == '4' {
        Some(4)
    } else if c == '5' {
        Some(5)
    } else if c == '6' {
        Some(6)
    } else if c == '7' {
        Some(7)
    } else if c == '8' {
        Some(8)
    } else if c == '9' {
        Some(9)
    } else {
        None
    }
}

/// A run of digits writes at least what any of its beginnings writes, and a
/// run with a beginning that is no number is no number.
proof fn digits_value_grows(s: Seq<char>, k: int)
    requires
        1 <= k <= s.len(),
    ensures
        digits_value(s.take(k)) is None ==> digits_value(s) is None,
        digits_value(s) matches Some(v) ==> digits_value(s.take(k)).unwrap() <= v,
    decreases s.len() - k,
{
    if k < s.len() {
        digits_value_grows(s, k + 1);
        assert(s.take(k + 1).drop_last() =~= s.take(k));
    } else {
        assert(s.take(k) =~= s);
    }
}

/// Reads a signed decimal number as `str::parse::<i32>` does: digits after
/// one optional `+` or `-`, nothing else, and no value that an `i32` cannot
/// hold.
pub fn parse_i32(text: &str) -> (value: Option<i32>)
    ensures
        value == parse_i32_spec(text@),
{
    let chars = to_chars(text);
    let n = chars.len();
    if n == 0 {
        return None;
    }
    let negative = chars[0] == '-';
    let start: usize = if negative || chars[0] == '+' {
        1
    } else {
        0
    };
    let ghost run = if start == 1 { chars@.skip(1) } else { chars@ };
    if start == n {
        return None;
    }
    let mut acc: i64 = 0;
    let mut i: usize = start;
    while i < n
        invariant
            start <= i <= n,
            n == chars@.len(),
            start < n,
            run == (if start == 1 { chars@.skip(1) } else { chars@ }),
            start == 0 || start == 1,
            chars@ == text@,
            negative == (chars@[0] == '-'),
            start == 1 <==> chars@[0] == '-' || chars@[0] == '+',
            0 <= acc <= 0x8000_0000,
            i > start ==> digits_value(run.take(i - start)) == Some(acc as nat),
            i == start ==> acc == 0,
        decreases n - i,
    {
        let ghost prefix = run.take(i - start + 1);
        proof {
            assert(prefix.last() == chars@[i as int]);
            assert(prefix.drop_last() =~= run.take(i - start));
            digits_value_grows(run, i - start + 1);
        }
        match digit_of(chars[i]) {
            None => {
                return None;
            },
            Some(d) => {
                let next: i64 = acc * 10 + d as i64;
                assert(digits_value(prefix) == Some(next as nat));
                if next > 0x8000_0000 {
                    return None;
                }
                acc = next;
            },
        }
        i += 1;
    }
    assert(run.take(n - start) =~= run);
    if negative {
        Some((-acc) as i32)
    } else if acc > 0x7fff_ffff {
        None
    } else {
        Some(acc as i32)
    }
}

/// Whether `needle` occurs in `hay` as a run of characters.
pub open spec fn has_substring(hay: Seq<char>, needle: Seq<char>) -> bool {
    exists|i: int|
        0 <= i && i + needle.len() <= hay.len() && #[trigger] hay.subrange(i, i + needle.len()) == needle
}

/// Whether `needle` stands in `hay` at place `at`.
fn matches_at(hay: &Vec<char>, needle: &Vec<char>, at: usize) -> (same: bool)
    requires
        at + needle@.len() <= hay@.len(),
    ensures
        same == (hay@.subrange(at as int, at + needle@.len()) == needle@),
{
    let m = needle.len();
    let n = hay.len();
    let mut j: usize = 0;
    while j < m
        invariant
            j <= m,
            m == needle@.len(),
            n == hay@.len(),
            at + m <= n,
            forall|t: int| 0 <= t < j ==> hay@[at + t] == needle@[t],
        decreases m - j,
    {
        if hay[at + j] != needle[j] {
            assert(hay@.subrange(at as int, at + m)[j as int] != needle@[j as int]);
            return false;
        }
        j += 1;
    }
    assert(hay@.subrange(at as int, at + m) =~= needle@);
    true
}

/// Whether `needle` occurs in `hay`.
pub fn contains(hay: &str, needle: &str) -> (found: bool)
    ensures
        found == has_substring(hay@, needle@),
{
    let hay_chars = to_chars(hay);
    let needle_chars = to_chars(needle);
    let n = hay_chars.len();
    let m = needle_chars.len();
    if m > n {
        return false;
    }
    let last = n - m;
    let mut i: usize = 0;
    loop
        invariant
            i <= last,
            last == n - m,
            m <= n,
            n == hay@.len(),
            m == needle@.len(),
            hay_chars@ == hay@,
            needle_chars@ == needle@,
            forall|k: int| 0 <= k < i ==> #[trigger] hay@.subrange(k, k + m) != needle@,
        decreases last - i,
    {
        if matches_at(&hay_chars, &needle_chars, i) {
            return true;
        }
        if i == last {
            return false;
        }
        i += 1;
    }
}

/// Whether two texts are the same.
pub fn same_text(a: &str, b: &str) -> (same: bool)
    ensures
        same == (a@ == b@),
{
    let a_chars = to_chars(a);
    let b_chars = to_chars(b);
    if a_chars.len() != b_chars.len() {
        return false;
    }
    let same = matches_at(&a_chars, &b_chars, 0);
    assert(a@.subrange(0, b@.len() as int) =~= a@);
    same
}

} // verus!
