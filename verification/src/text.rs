//! Text forms of numbers, and the few string operations that names, wire fields
//! and error messages are built from.

use vstd::prelude::*;

verus! {

/// The decimal digit of `d`, for `d < 10`.
pub open spec fn digit_char(d: nat) -> char {
    if d == 0 {
        '0'
    } else if d == 1 {
        '1'
    } else if d == 2 {
        '2'
    } else if d == 3 {
        '3'
    } else if d == 4 {
        '4'
    } else if d == 5 {
        '5'
    } else if d == 6 {
        '6'
    } else if d == 7 {
        '7'
    } else if d == 8 {
        '8'
    } else {
        '9'
    }
}

/// The lower-case hexadecimal digit of `d`, for `d < 16`.
pub open spec fn hex_char(d: nat) -> char {
    if d < 10 {
        digit_char(d)
    } else if d == 10 {
        'a'
    } else if d == 11 {
        'b'
    } else if d == 12 {
        'c'
    } else if d == 13 {
        'd'
    } else if d == 14 {
        'e'
    } else {
        'f'
    }
}

/// Decimal text of `n`, without sign or leading zeros.
pub open spec fn decimal(n: nat) -> Seq<char>
    decreases n,
{
    if n < 10 {
        seq![digit_char(n)]
    } else {
        decimal(n / 10).push(digit_char(n % 10))
    }
}

/// The low `width` hexadecimal digits of `n`, most significant first.
pub open spec fn hex_digits(n: nat, width: nat) -> Seq<char>
    decreases width,
{
    if width == 0 {
        Seq::empty()
    } else {
        hex_digits(n / 16, (width - 1) as nat).push(hex_char(n % 16))
    }
}

/// Whether `c` is an ASCII decimal digit.
pub open spec fn is_digit(c: char) -> bool {
    48 <= (c as u32) <= 57
}

/// The value of the ASCII decimal digit `c`.
pub open spec fn digit_value(c: char) -> nat {
    ((c as u32) - 48) as nat
}

/// Why a text is not a decimal number that fits.
#[derive(Clone, Copy, Debug, PartialEq, Eq, Structural)]
pub enum DecimalError {
    /// The text is empty.
    Empty,
    /// A character is not a digit, or there is a sign alone.
    InvalidDigit,
    /// The number is larger than the largest one accepted.
    Overflow,
}

impl DecimalError {
    /// The wording of this error.
    pub open spec fn text(self) -> Seq<char> {
        match self {
            DecimalError::Empty => "cannot find integer in empty string"@,
            DecimalError::InvalidDigit => "invalid digit found in string"@,
            DecimalError::Overflow => "number too large to fit in target type"@,
        }
    }

    /// Returns the wording of this error.
    pub fn message(self) -> (r: String)
        ensures
            r@ == self.text(),
    {
        match self {
            DecimalError::Empty => "cannot find integer in empty string".to_owned(),
            DecimalError::InvalidDigit => "invalid digit found in string".to_owned(),
            DecimalError::Overflow => "number too large to fit in target type".to_owned(),
        }
    }
}

/// The number that the digits `s` add to the digits already read as `acc`. The
/// first character that is no digit, or that makes the number exceed `max`, decides
/// the error.
pub open spec fn digits_value(s: Seq<char>, acc: nat, max: nat) -> Result<nat, DecimalError>
    decreases s.len(),
{
    if s.len() == 0 {
        Ok(acc)
    } else if !is_digit(s[0]) {
        Err(DecimalError::InvalidDigit)
    } else if acc * 10 + digit_value(s[0]) > max {
        Err(DecimalError::Overflow)
    } else {
        digits_value(s.drop_first(), acc * 10 + digit_value(s[0]), max)
    }
}

/// The unsigned number that `s` writes in decimal, with an optional leading plus sign.
pub open spec fn decimal_value(s: Seq<char>, max: nat) -> Result<nat, DecimalError> {
    if s.len() == 0 {
        Err(DecimalError::Empty)
    } else if s.len() > 1 && s[0] == '+' {
        digits_value(s.drop_first(), 0, max)
    } else {
        digits_value(s, 0, max)
    }
}

/// Whether `c` has the Unicode property White_Space.
pub open spec fn is_white_space(c: char) -> bool {
    let n = c as u32;
    ||| 0x9 <= n <= 0xd
    ||| n == 0x20
    ||| n == 0x85
    ||| n == 0xa0
    ||| n == 0x1680
    ||| 0x2000 <= n <= 0x200a
    ||| n == 0x2028
    ||| n == 0x2029
    ||| n == 0x202f
    ||| n == 0x205f
    ||| n == 0x3000
}

/// `s` without its leading white space.
pub open spec fn trim_start(s: Seq<char>) -> Seq<char>
    decreases s.len(),
{
    if s.len() > 0 && is_white_space(s[0]) {
        trim_start(s.drop_first())
    } else {
        s
    }
}

/// `s` without its trailing white space.
pub open spec fn trim_end(s: Seq<char>) -> Seq<char>
    decreases s.len(),
{
    if s.len() > 0 && is_white_space(s.last()) {
        trim_end(s.drop_last())
    } else {
        s
    }
}

/// `s` without its leading and trailing white space.
pub open spec fn trimmed(s: Seq<char>) -> Seq<char> {
    trim_end(trim_start(s))
}

/// Number of bytes of `c` in UTF-8.
pub open spec fn char_utf8_len(c: char) -> nat {
    let n = c as u32;
    if n < 0x80 {
        1
    } else if n < 0x800 {
        2
    } else if n < 0x10000 {
        3
    } else {
        4
    }
}

/// Number of bytes of `s` in UTF-8.
pub open spec fn utf8_len(s: Seq<char>) -> nat
    decreases s.len(),
{
    if s.len() == 0 {
        0
    } else {
        utf8_len(s.drop_last()) + char_utf8_len(s.last())
    }
}

proof fn lemma_trim_start(s: Seq<char>, lo: int)
    requires
        0 <= lo <= s.len(),
        forall|i: int| 0 <= i < lo ==> is_white_space(#[trigger] s[i]),
        lo < s.len() ==> !is_white_space(s[lo]),
    ensures
        trim_start(s) == s.subrange(lo, s.len() as int),
    decreases lo,
{
    if lo == 0 {
        assert(s.subrange(0, s.len() as int) =~= s);
    } else {
        let t = s.drop_first();
        assert forall|i: int| 0 <= i < lo - 1 implies is_white_space(#[trigger] t[i]) by {
            assert(t[i] == s[i + 1]);
        }
        lemma_trim_start(t, lo - 1);
        assert(is_white_space(s[0]));
        assert(t.subrange(lo - 1, t.len() as int) =~= s.subrange(lo, s.len() as int));
    }
}

proof fn lemma_trim_end(s: Seq<char>, hi: int)
    requires
        0 <= hi <= s.len(),
        forall|i: int| hi <= i < s.len() ==> is_white_space(#[trigger] s[i]),
        hi > 0 ==> !is_white_space(s[hi - 1]),
    ensures
        trim_end(s) == s.subrange(0, hi),
    decreases s.len() - hi,
{
    if hi == s.len() {
        assert(s.subrange(0, hi) =~= s);
    } else {
        let t = s.drop_last();
        lemma_trim_end(t, hi);
        assert(is_white_space(s[s.len() - 1]));
        assert(t.subrange(0, hi) =~= s.subrange(0, hi));
    }
}

/// A text that neither begins nor ends with white space is its own trimmed form.
pub proof fn trimmed_of_bare_text(s: Seq<char>)
    requires
        s.len() > 0 ==> !is_white_space(s[0]) && !is_white_space(s.last()),
    ensures
        trimmed(s) == s,
{
}

/// Trimming a text twice is trimming it once.
pub proof fn trimmed_is_idempotent(s: Seq<char>)
    ensures
        trimmed(trimmed(s)) == trimmed(s),
        trimmed(s).len() > 0 ==> !is_white_space(trimmed(s)[0]) && !is_white_space(
            trimmed(s).last(),
        ),
{
    lemma_trim_start_head(s);
    lemma_trim_end_tail(trim_start(s));
    trimmed_of_bare_text(trimmed(s));
}

proof fn lemma_trim_start_head(s: Seq<char>)
    ensures
        trim_start(s).len() > 0 ==> !is_white_space(trim_start(s)[0]),
    decreases s.len(),
{
    if s.len() > 0 && is_white_space(s[0]) {
        lemma_trim_start_head(s.drop_first());
    }
}

proof fn lemma_trim_end_tail(s: Seq<char>)
    ensures
        trim_end(s).len() > 0 ==> !is_white_space(trim_end(s).last()) && trim_end(s)[0] == s[0],
    decreases s.len(),
{
    if s.len() > 0 && is_white_space(s.last()) {
        lemma_trim_end_tail(s.drop_last());
    }
}

proof fn lemma_digits_value_push(s: Seq<char>, c: char, acc: nat, max: nat)
    ensures
        digits_value(s.push(c), acc, max) == match digits_value(s, acc, max) {
            Err(e) => Err::<nat, DecimalError>(e),
            Ok(v) => digits_value(seq![c], v, max),
        },
    decreases s.len(),
{
    if s.len() == 0 {
        assert(s.push(c) =~= seq![c]);
    } else {
        assert(s.push(c)[0] == s[0]);
        assert(s.push(c).drop_first() =~= s.drop_first().push(c));
        if is_digit(s[0]) && acc * 10 + digit_value(s[0]) <= max {
            lemma_digits_value_push(s.drop_first(), c, acc * 10 + digit_value(s[0]), max);
        }
    }
}

proof fn lemma_decimal_digits(n: nat, max: nat)
    requires
        n <= max,
    ensures
        digits_value(decimal(n), 0, max) == Ok::<nat, DecimalError>(n),
        decimal(n).len() > 0,
        forall|i: int| 0 <= i < decimal(n).len() ==> is_digit(#[trigger] decimal(n)[i]),
    decreases n,
{
    let c = digit_char(n % 10);
    assert(is_digit(c) && digit_value(c) == n % 10);
    let one = seq![c];
    assert(one.drop_first() =~= Seq::<char>::empty());
    if n < 10 {
        assert(decimal(n) =~= one);
        assert(digits_value(one.drop_first(), n, max) == Ok::<nat, DecimalError>(n));
    } else {
        lemma_decimal_digits(n / 10, max);
        lemma_digits_value_push(decimal(n / 10), c, 0, max);
        assert(digits_value(one.drop_first(), n, max) == Ok::<nat, DecimalError>(n));
    }
}

/// Reading the decimal text of a number gives the number back.
pub proof fn decimal_round_trip(n: nat, max: nat)
    requires
        n <= max,
    ensures
        decimal_value(decimal(n), max) == Ok::<nat, DecimalError>(n),
{
    lemma_decimal_digits(n, max);
    assert(is_digit(decimal(n)[0]));
}

proof fn lemma_digits_value_is_bounded(s: Seq<char>, acc: nat, max: nat)
    requires
        acc <= max,
    ensures
        digits_value(s, acc, max) is Ok ==> digits_value(s, acc, max)->Ok_0 <= max,
    decreases s.len(),
{
    if s.len() > 0 && is_digit(s[0]) && acc * 10 + digit_value(s[0]) <= max {
        lemma_digits_value_is_bounded(s.drop_first(), acc * 10 + digit_value(s[0]), max);
    }
}

/// A number that was read is at most the largest one accepted.
pub proof fn decimal_value_is_bounded(s: Seq<char>, max: nat)
    ensures
        decimal_value(s, max) is Ok ==> decimal_value(s, max)->Ok_0 <= max,
{
    if s.len() > 0 {
        lemma_digits_value_is_bounded(s, 0, max);
        lemma_digits_value_is_bounded(s.drop_first(), 0, max);
    }
}

/// The decimal text of a number consists of digits.
pub proof fn decimal_is_digits(n: nat)
    ensures
        decimal(n).len() > 0,
        forall|i: int| 0 <= i < decimal(n).len() ==> is_digit(#[trigger] decimal(n)[i]),
{
    lemma_decimal_digits(n, n);
}

fn hex_digit_text(d: u8) -> (r: String)
    requires
        d < 16,
    ensures
        r@ == seq![hex_char(d as nat)],
{
    proof {
        reveal_strlit("0");
        reveal_strlit("1");
        reveal_strlit("2");
        reveal_strlit("3");
        reveal_strlit("4");
        reveal_strlit("5");
        reveal_strlit("6");
        reveal_strlit("7");
        reveal_strlit("8");
        reveal_strlit("9");
        reveal_strlit("a");
        reveal_strlit("b");
        reveal_strlit("c");
        reveal_strlit("d");
        reveal_strlit("e");
        reveal_strlit("f");
    }
    let text = match d {
        0 => "0",
        1 => "1",
        2 => "2",
        3 => "3",
        4 => "4",
        5 => "5",
        6 => "6",
        7 => "7",
        8 => "8",
        9 => "9",
        10 => "a",
        11 => "b",
        12 => "c",
        13 => "d",
        14 => "e",
        _ => "f",
    };
    assert(text@ =~= seq![hex_char(d as nat)]);
    text.to_owned()
}

/// Returns the decimal text of `n`.
pub fn decimal_text(n: u128) -> (r: String)
    ensures
        r@ == decimal(n as nat),
    decreases n,
{
    let digit = hex_digit_text((n % 10) as u8);
    if n < 10 {
        digit
    } else {
        let mut out = decimal_text(n / 10);
        out.append(digit.as_str());
        assert(out@ =~= decimal(n as nat / 10).push(digit_char(n as nat % 10)));
        out
    }
}

/// Returns the low `width` hexadecimal digits of `n`, most significant first.
pub fn hex_text(n: u128, width: u8) -> (r: String)
    ensures
        r@ == hex_digits(n as nat, width as nat),
    decreases width,
{
    if width == 0 {
        String::new()
    } else {
        let mut out = hex_text(n / 16, width - 1);
        let digit = hex_digit_text((n % 16) as u8);
        out.append(digit.as_str());
        assert(out@ =~= hex_digits(n as nat / 16, (width - 1) as nat).push(
            hex_char(n as nat % 16),
        ));
        out
    }
}

/// Returns the characters of `s`.
pub fn chars_of(s: &str) -> (r: Vec<char>)
    ensures
        r@ == s@,
{
    let mut out: Vec<char> = Vec::new();
    for c in it: s.chars()
        invariant
            it.seq() == s@,
            out@ == s@.take(it.index() as int),
    {
        out.push(c);
        assert(s@.take(it.index() as int + 1) =~= s@.take(it.index() as int).push(c));
    }
    assert(s@.take(s@.len() as int) =~= s@);
    out
}

/// Returns whether `c` has the Unicode property White_Space.
pub fn char_is_white_space(c: char) -> (r: bool)
    ensures
        r == is_white_space(c),
{
    let n: u32 = c as u32;
    (0x9 <= n && n <= 0xd) || n == 0x20 || n == 0x85 || n == 0xa0 || n == 0x1680 || (0x2000 <= n
        && n <= 0x200a) || n == 0x2028 || n == 0x2029 || n == 0x202f || n == 0x205f || n == 0x3000
}

/// Returns `s` without its leading and trailing white space.
pub fn trim(s: &str) -> (r: &str)
    ensures
        r@ == trimmed(s@),
{
    let chars = chars_of(s);
    let n: usize = chars.len();
    let mut lo: usize = 0;
    while lo < n && char_is_white_space(chars[lo])
        invariant
            n == chars@.len(),
            chars@ == s@,
            lo <= n,
            forall|i: int| 0 <= i < lo ==> is_white_space(#[trigger] s@[i]),
        decreases n - lo,
    {
        lo += 1;
    }
    proof {
        lemma_trim_start(s@, lo as int);
    }
    let ghost rest = s@.subrange(lo as int, n as int);
    let mut hi: usize = n;
    while hi > lo && char_is_white_space(chars[hi - 1])
        invariant
            n == chars@.len(),
            chars@ == s@,
            lo <= hi <= n,
            rest == s@.subrange(lo as int, n as int),
            forall|i: int| hi - lo <= i < rest.len() ==> is_white_space(#[trigger] rest[i]),
        decreases hi,
    {
        assert(rest[hi - 1 - lo] == s@[hi - 1]);
        hi -= 1;
    }
    proof {
        if hi > lo {
            assert(rest[hi - lo - 1] == s@[hi - 1]);
        }
        lemma_trim_end(rest, hi - lo);
        assert(rest.subrange(0, hi - lo) =~= s@.subrange(lo as int, hi as int));
    }
    s.substring_char(lo, hi)
}

proof fn lemma_utf8_len_prefix(s: Seq<char>, k: int)
    requires
        0 <= k <= s.len(),
    ensures
        utf8_len(s.take(k)) <= utf8_len(s),
        k < s.len() ==> utf8_len(s.take(k + 1)) == utf8_len(s.take(k)) + char_utf8_len(s[k]),
    decreases s.len(),
{
    if k < s.len() {
        assert(s.take(k + 1).drop_last() =~= s.take(k));
        lemma_utf8_len_prefix(s.drop_last(), k);
        assert(s.drop_last().take(k) =~= s.take(k));
    } else {
        assert(s.take(k) =~= s);
    }
}

/// Returns whether `s` takes more than `limit` bytes in UTF-8.
pub fn is_longer_than(s: &str, limit: usize) -> (r: bool)
    requires
        limit < 1024,
    ensures
        r == (utf8_len(s@) > limit),
{
    let chars = chars_of(s);
    let mut total: usize = 0;
    let mut i: usize = 0;
    while i < chars.len()
        invariant
            chars@ == s@,
            i <= chars@.len(),
            total == utf8_len(s@.take(i as int)),
            total <= limit < 1024,
        decreases chars.len() - i,
    {
        proof {
            lemma_utf8_len_prefix(s@, i as int);
            lemma_utf8_len_prefix(s@, i as int + 1);
        }
        let n: u32 = chars[i] as u32;
        total = total + if n < 0x80 {
            1
        } else if n < 0x800 {
            2
        } else if n < 0x10000 {
            3
        } else {
            4
        };
        i += 1;
        if total > limit {
            return true;
        }
    }
    assert(s@.take(i as int) =~= s@);
    false
}

/// Reads an unsigned decimal number of at most `max`.
pub fn parse_decimal(s: &str, max: u128) -> (r: Result<u128, DecimalError>)
    ensures
        r is Ok <==> decimal_value(s@, max as nat) is Ok,
        r is Ok ==> decimal_value(s@, max as nat) == Ok::<nat, DecimalError>(r->Ok_0 as nat),
        r is Err ==> decimal_value(s@, max as nat) == Err::<nat, DecimalError>(r->Err_0),
{
    let chars = chars_of(s);
    let n: usize = chars.len();
    if n == 0 {
        return Err(DecimalError::Empty);
    }
    let start: usize = if n > 1 && chars[0] == '+' {
        1
    } else {
        0
    };
    let mut acc: u128 = 0;
    let mut i: usize = start;
    assert(start == 1 ==> s@.subrange(1, n as int) =~= s@.drop_first());
    assert(start == 0 ==> s@.subrange(0, n as int) =~= s@);
    while i < n
        invariant
            chars@ == s@,
            n == chars@.len(),
            i <= n,
            acc <= max || acc == 0,
            decimal_value(s@, max as nat) == digits_value(
                s@.subrange(i as int, n as int),
                acc as nat,
                max as nat,
            ),
        decreases n - i,
    {
        let c = chars[i];
        let ghost rest = s@.subrange(i as int, n as int);
        assert(rest[0] == c);
        assert(rest.drop_first() =~= s@.subrange(i as int + 1, n as int));
        let code: u32 = c as u32;
        if code < 48 || code > 57 {
            return Err(DecimalError::InvalidDigit);
        }
        let d: u128 = (code - 48) as u128;
        if d > max || acc > (max - d) / 10 {
            return Err(DecimalError::Overflow);
        }
        acc = acc * 10 + d;
        i += 1;
    }
    Ok(acc)
}

/// Returns `a` followed by `b`.
pub fn join(a: &str, b: &str) -> (r: String)
    ensures
        r@ == a@ + b@,
{
    let mut out = a.to_owned();
    out.append(b);
    out
}

/// Returns whether the two texts are the same.
pub fn same_text(a: &str, b: &str) -> (r: bool)
    ensures
        r == (a@ == b@),
{
    let left = a.to_owned();
    let right = b.to_owned();
    left == right
}

} // verus!
