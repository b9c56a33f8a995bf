//! Character-level helpers for the two command grammars: indexing, prefixes,
//! searching, field splitting and decimal numerals.
//!
//! Frames are plain ASCII, so every executable helper here works on ASCII
//! strings, where a character position is also a byte position.

use vstd::prelude::*;
use vstd::string::*;

verus! {

// ---------------------------------------------------------------------------
// Mathematical definitions
// ---------------------------------------------------------------------------

/// Whether `c` is one of the decimal digits `0` to `9`.
pub open spec fn is_digit(c: char) -> bool {
    '0' <= c && c <= '9'
}

/// The value of a decimal digit; zero for any other character.
pub open spec fn digit_value(c: char) -> nat {
    if is_digit(c) {
        (c as int - '0' as int) as nat
    } else {
        0
    }
}

/// Whether every character of `s` is a decimal digit.
pub open spec fn all_digits(s: Seq<char>) -> bool {
    forall|i: int| 0 <= i < s.len() ==> is_digit(#[trigger] s[i])
}

/// The number that a string of digits denotes in base ten.
pub open spec fn decimal(s: Seq<char>) -> nat
    decreases s.len(),
{
    if s.len() == 0 {
        0
    } else {
        10 * decimal(s.drop_last()) + digit_value(s.last())
    }
}

/// Whether `s` opens with a sign that a numeral may carry: `+` always, `-`
/// only where negative numbers are admitted.
pub open spec fn has_sign(s: Seq<char>, signed: bool) -> bool {
    s.len() > 0 && (s[0] == '+' || (signed && s[0] == '-'))
}

/// The digits of a numeral, that is the numeral without its sign.
pub open spec fn numeral_digits(s: Seq<char>, signed: bool) -> Seq<char> {
    if has_sign(s, signed) {
        s.drop_first()
    } else {
        s
    }
}

/// The integer that `s` denotes: an optional sign followed by at least one
/// digit and nothing else. `None` for every other string.
pub open spec fn numeral(s: Seq<char>, signed: bool) -> Option<int> {
    let digits = numeral_digits(s, signed);
    if digits.len() > 0 && all_digits(digits) {
        if has_sign(s, signed) && s[0] == '-' {
            Some(-(decimal(digits) as int))
        } else {
            Some(decimal(digits) as int)
        }
    } else {
        None
    }
}

/// The unsigned 8-bit number that `s` denotes, if it denotes one.
pub open spec fn u8_of(s: Seq<char>) -> Option<u8> {
    match numeral(s, false) {
        Some(v) => if v <= 255 {
            Some(v as u8)
        } else {
            None
        },
        None => None,
    }
}

/// The signed 8-bit number that `s` denotes, if it denotes one.
pub open spec fn i8_of(s: Seq<char>) -> Option<i8> {
    match numeral(s, true) {
        Some(v) => if -128 <= v <= 127 {
            Some(v as i8)
        } else {
            None
        },
        None => None,
    }
}

/// Whether `s` begins with `prefix`.
pub open spec fn has_prefix(s: Seq<char>, prefix: Seq<char>) -> bool {
    prefix.len() <= s.len() && s.subrange(0, prefix.len() as int) == prefix
}

/// Whether `pattern` occurs in `s` at position `at`.
pub open spec fn occurs_at(s: Seq<char>, pattern: Seq<char>, at: int) -> bool {
    0 <= at && at + pattern.len() <= s.len() && s.subrange(at, at + pattern.len()) == pattern
}

/// The position of the first occurrence of `pattern` in `s` at or after
/// `from`, if there is one.
pub open spec fn find_from(s: Seq<char>, pattern: Seq<char>, from: int) -> Option<int>
    decreases s.len() - from + 1,
{
    if from < 0 || from + pattern.len() > s.len() {
        None
    } else if occurs_at(s, pattern, from) {
        Some(from)
    } else {
        find_from(s, pattern, from + 1)
    }
}

/// The position of the first `sep` in `s`, or the length of `s` if it holds
/// none.
pub open spec fn first_index(s: Seq<char>, sep: char) -> int
    decreases s.len(),
{
    if s.len() == 0 || s[0] == sep {
        0
    } else {
        1 + first_index(s.drop_first(), sep)
    }
}

/// The fields of `s` between the separators `sep`. A string without a
/// separator is one field, and so is the empty string.
pub open spec fn split(s: Seq<char>, sep: char) -> Seq<Seq<char>>
    decreases s.len(),
{
    let k = first_index(s, sep);
    if 0 <= k < s.len() {
        seq![s.subrange(0, k)] + split(s.subrange(k + 1, s.len() as int), sep)
    } else {
        seq![s]
    }
}

/// The fields of `s` as `split` gives them, without the last one if it is
/// empty: a separator at the end terminates a field and opens no new one.
pub open spec fn split_terminator(s: Seq<char>, sep: char) -> Seq<Seq<char>> {
    let fields = split(s, sep);
    if fields.last().len() == 0 {
        fields.drop_last()
    } else {
        fields
    }
}

/// The numbers of a `:`-separated list of unsigned 8-bit numerals; `None` if
/// any field is not such a numeral.
pub open spec fn u8_list(s: Seq<char>) -> Option<Seq<u8>> {
    let fields = split(s, ':');
    if forall|i: int| 0 <= i < fields.len() ==> (#[trigger] u8_of(fields[i])) is Some {
        Some(Seq::new(fields.len(), |i: int| u8_of(fields[i])->0))
    } else {
        None
    }
}

/// The numbers of a `:`-separated list of signed 8-bit numerals; `None` if
/// any field is not such a numeral.
pub open spec fn i8_list(s: Seq<char>) -> Option<Seq<i8>> {
    let fields = split(s, ':');
    if forall|i: int| 0 <= i < fields.len() ==> (#[trigger] i8_of(fields[i])) is Some {
        Some(Seq::new(fields.len(), |i: int| i8_of(fields[i])->0))
    } else {
        None
    }
}

/// The character that writes the digit `d`.
pub open spec fn digit_char(d: nat) -> char
    recommends
        d < 10,
{
    if d == 0 {
        '0'
    } else if d == 1 {
        '1'
    } else if d == 2 {
        '2'
    } else if d == 3 {
        '3'
    } else if d == 4 {
        '4'
    } else if d == 5 {
        '5'
    } else if d == 6 {
        '6'
    } else if d == 7 {
        '7'
    } else if d == 8 {
        '8'
    } else {
        '9'
    }
}

/// The number `n` written in base ten, without leading zeros.
pub open spec fn decimal_text(n: nat) -> Seq<char>
    decreases n,
{
    if n < 10 {
        seq![digit_char(n)]
    } else {
        decimal_text(n / 10).push(digit_char(n % 10))
    }
}

/// The integer `n` written in base ten, with a minus sign before a negative
/// number.
pub open spec fn signed_text(n: int) -> Seq<char> {
    if n < 0 {
        "-"@ + decimal_text((-n) as nat)
    } else {
        decimal_text(n as nat)
    }
}

// ---------------------------------------------------------------------------
// Lemmas
// ---------------------------------------------------------------------------

/// `first_index` is the one position before which no separator stands and
/// at which one does, or the end of the string.
pub proof fn lemma_first_index(s: Seq<char>, sep: char, k: int)
    requires
        0 <= k <= s.len(),
        forall|j: int| 0 <= j < k ==> s[j] != sep,
        k == s.len() || s[k] == sep,
    ensures
        first_index(s, sep) == k,
    decreases s.len(),
{
    if s.len() == 0 || s[0] == sep {
    } else {
        let t = s.drop_first();
        assert forall|j: int| 0 <= j < k - 1 implies t[j] != sep by {
            assert(t[j] == s[j + 1]);
        }
        lemma_first_index(t, sep, k - 1);
    }
}

/// Appending a digit to a digit string multiplies its value by ten and adds
/// the digit.
pub proof fn lemma_decimal_push(s: Seq<char>, c: char)
    ensures
        decimal(s.push(c)) == 10 * decimal(s) + digit_value(c),
{
    assert(s.push(c).drop_last() =~= s);
    assert(s.push(c).last() == c);
}

// ---------------------------------------------------------------------------
// Executable helpers
// ---------------------------------------------------------------------------

/// The number of characters of an ASCII string.
pub fn char_len(s: &str) -> (n: usize)
    requires
        s.is_ascii(),
    ensures
        n == s@.len(),
{
    proof {
        is_ascii_spec_bytes(s);
    }
    s.as_bytes().len()
}

/// The character at position `i` of an ASCII string.
pub fn char_at(s: &str, i: usize) -> (c: char)
    requires
        s.is_ascii(),
        i < s@.len(),
    ensures
        c == s@[i as int],
{
    broadcast use is_ascii_spec_bytes;

    let b: u8 = s.as_bytes()[i];
    b as char
}

/// Whether the ASCII string `s` begins with the ASCII string `prefix`.
pub fn starts_with(s: &str, prefix: &str) -> (b: bool)
    requires
        s.is_ascii(),
        prefix.is_ascii(),
    ensures
        b == has_prefix(s@, prefix@),
{
    let n = char_len(s);
    let m = char_len(prefix);
    if m > n {
        return false;
    }
    let mut i: usize = 0;
    while i < m
        invariant
            s.is_ascii(),
            prefix.is_ascii(),
            n == s@.len(),
            m == prefix@.len(),
            m <= n,
            i <= m,
            forall|j: int| 0 <= j < i ==> s@[j] == prefix@[j],
        decreases m - i,
    {
        if char_at(s, i) != char_at(prefix, i) {
            proof {
                assert(s@.subrange(0, m as int)[i as int] == s@[i as int]);
            }
            return false;
        }
        i += 1;
    }
    proof {
        assert(s@.subrange(0, m as int) =~= prefix@);
    }
    true
}

/// Whether `pattern` occurs in `s` at position `at`.
pub fn matches_at(s: &str, pattern: &str, at: usize) -> (b: bool)
    requires
        s.is_ascii(),
        pattern.is_ascii(),
    ensures
        b == occurs_at(s@, pattern@, at as int),
{
    let n = char_len(s);
    let m = char_len(pattern);
    if at > n || m > n - at {
        return false;
    }
    let mut i: usize = 0;
    while i < m
        invariant
            s.is_ascii(),
            pattern.is_ascii(),
            n == s@.len(),
            m == pattern@.len(),
            at + m <= n,
            i <= m,
            forall|j: int| 0 <= j < i ==> s@[at + j] == pattern@[j],
        decreases m - i,
    {
        if char_at(s, at + i) != char_at(pattern, i) {
            proof {
                assert(s@.subrange(at as int, at + m)[i as int] == s@[at + i]);
            }
            return false;
        }
        i += 1;
    }
    proof {
        assert(s@.subrange(at as int, at + m) =~= pattern@);
    }
    true
}

/// The position of the first occurrence of `pattern` in `s` at or after
/// `from`.
pub fn find(s: &str, pattern: &str, from: usize) -> (r: Option<usize>)
    requires
        s.is_ascii(),
        pattern.is_ascii(),
    ensures
        match r {
            Some(at) => from <= at && at + pattern@.len() <= s@.len() && find_from(
                s@,
                pattern@,
                from as int,
            ) == Some(at as int),
            None => find_from(s@, pattern@, from as int) is None,
        },
{
    let n = char_len(s);
    let m = char_len(pattern);
    if m > n || from > n - m {
        return None;
    }
    let last: usize = n - m;
    let mut i: usize = from;
    loop
        invariant
            s.is_ascii(),
            pattern.is_ascii(),
            n == s@.len(),
            m == pattern@.len(),
            last == n - m,
            from <= i <= last,
            find_from(s@, pattern@, from as int) == find_from(s@, pattern@, i as int),
        decreases last - i,
    {
        if matches_at(s, pattern, i) {
            return Some(i);
        }
        if i == last {
            assert(find_from(s@, pattern@, i + 1) is None);
            return None;
        }
        i += 1;
    }
}

/// The position of the first `sep` in `s` at or after `from`, or the length
/// of `s` if none follows.
pub fn index_of(s: &str, sep: char, from: usize) -> (k: usize)
    requires
        s.is_ascii(),
        from <= s@.len(),
    ensures
        from <= k <= s@.len(),
        k - from == first_index(s@.subrange(from as int, s@.len() as int), sep),
{
    let n = char_len(s);
    let mut i: usize = from;
    while i < n && char_at(s, i) != sep
        invariant
            s.is_ascii(),
            n == s@.len(),
            from <= i <= n,
            forall|j: int| from <= j < i ==> s@[j] != sep,
        decreases n - i,
    {
        i += 1;
    }
    proof {
        let t = s@.subrange(from as int, n as int);
        assert forall|j: int| 0 <= j < i - from implies t[j] != sep by {
            assert(t[j] == s@[from + j]);
        }
        lemma_first_index(t, sep, i - from);
    }
    i
}

/// Reads the digit string `s[from..to]`. The value is capped at 1000, which
/// is beyond every 8-bit range, so that no string is too long to read.
fn parse_digits(s: &str, from: usize, to: usize) -> (r: Option<u32>)
    requires
        s.is_ascii(),
        from <= to <= s@.len(),
    ensures
        r is Some <==> from < to && all_digits(s@.subrange(from as int, to as int)),
        r matches Some(v) ==> v == if decimal(s@.subrange(from as int, to as int)) < 1000 {
            decimal(s@.subrange(from as int, to as int))
        } else {
            1000
        },
{
    if from >= to {
        return None;
    }
    let ghost digits = s@.subrange(from as int, to as int);
    let mut acc: u32 = 0;
    let mut i: usize = from;
    while i < to
        invariant
            s.is_ascii(),
            from <= i <= to <= s@.len(),
            digits == s@.subrange(from as int, to as int),
            all_digits(digits.subrange(0, i - from)),
            acc <= 1000,
            acc == if decimal(digits.subrange(0, i - from)) < 1000 {
                decimal(digits.subrange(0, i - from))
            } else {
                1000
            },
        decreases to - i,
    {
        let c = char_at(s, i);
        if c < '0' || c > '9' {
            proof {
                assert(digits[i - from] == c);
                assert(!is_digit(digits[i - from]));
            }
            return None;
        }
        let d: u32 = c as u32 - '0' as u32;
        proof {
            let before = digits.subrange(0, i - from);
            let after = digits.subrange(0, i - from + 1);
            assert(after =~= before.push(c));
            lemma_decimal_push(before, c);
            assert forall|j: int| 0 <= j < after.len() implies is_digit(#[trigger] after[j]) by {
                if j < before.len() {
                    assert(after[j] == before[j]);
                }
            }
        }
        acc = acc * 10 + d;
        if acc > 1000 {
            acc = 1000;
        }
        i += 1;
    }
    proof {
        assert(digits.subrange(0, to - from) =~= digits);
    }
    Some(acc)
}

/// Reads `s[from..to]` as an unsigned 8-bit numeral.
pub fn parse_u8(s: &str, from: usize, to: usize) -> (r: Option<u8>)
    requires
        s.is_ascii(),
        from <= to <= s@.len(),
    ensures
        r == u8_of(s@.subrange(from as int, to as int)),
{
    let ghost t = s@.subrange(from as int, to as int);
    let mut start: usize = from;
    if from < to && char_at(s, from) == '+' {
        start = from + 1;
    }
    proof {
        assert(from < to ==> t[0] == s@[from as int]);
        assert(numeral_digits(t, false) =~= s@.subrange(start as int, to as int));
    }
    match parse_digits(s, start, to) {
        Some(v) => {
            if v <= 255 {
                Some(v as u8)
            } else {
                None
            }
        },
        None => None,
    }
}

/// Reads `s[from..to]` as a signed 8-bit numeral.
pub fn parse_i8(s: &str, from: usize, to: usize) -> (r: Option<i8>)
    requires
        s.is_ascii(),
        from <= to <= s@.len(),
    ensures
        r == i8_of(s@.subrange(from as int, to as int)),
{
    let ghost t = s@.subrange(from as int, to as int);
    let mut start: usize = from;
    let mut negative = false;
    if from < to {
        let c = char_at(s, from);
        if c == '+' {
            start = from + 1;
        } else if c == '-' {
            start = from + 1;
            negative = true;
        }
    }
    proof {
        assert(from < to ==> t[0] == s@[from as int]);
        assert(numeral_digits(t, true) =~= s@.subrange(start as int, to as int));
    }
    match parse_digits(s, start, to) {
        Some(v) => {
            if negative {
                if v <= 128 {
                    Some((0 - v as i32) as i8)
                } else {
                    None
                }
            } else if v <= 127 {
                Some(v as i8)
            } else {
                None
            }
        },
        None => None,
    }
}

/// The one-character string that writes the digit `d`.
fn digit_str(d: u8) -> (s: &'static str)
    requires
        d < 10,
    ensures
        s@ == seq![digit_char(d as nat)],
{
    proof {
        reveal_strlit("0");
        reveal_strlit("1");
        reveal_strlit("2");
        reveal_strlit("3");
        reveal_strlit("4");
        reveal_strlit("5");
        reveal_strlit("6");
        reveal_strlit("7");
        reveal_strlit("8");
        reveal_strlit("9");
    }
    let s = match d {
        0 => "0",
        1 => "1",
        2 => "2",
        3 => "3",
        4 => "4",
        5 => "5",
        6 => "6",
        7 => "7",
        8 => "8",
        _ => "9",
    };
    assert(s@ =~= seq![digit_char(d as nat)]);
    s
}

/// Writes `n` in base ten.
pub fn nat_text(n: u32) -> (s: String)
    ensures
        s@ == decimal_text(n as nat),
    decreases n,
{
    if n < 10 {
        String::from_str(digit_str(n as u8))
    } else {
        let mut s = nat_text(n / 10);
        s.append(digit_str((n % 10) as u8));
        assert(s@ =~= decimal_text(n as nat));
        s
    }
}

/// Writes `n` in base ten.
pub fn u8_text(n: u8) -> (s: String)
    ensures
        s@ == decimal_text(n as nat),
{
    nat_text(n as u32)
}

/// Writes `n` in base ten, with a minus sign before a negative number.
pub fn i16_text(n: i16) -> (s: String)
    ensures
        s@ == signed_text(n as int),
{
    if n < 0 {
        let mut s = String::from_str("-");
        s.append(nat_text((0 - n as i32) as u32).as_str());
        s
    } else {
        nat_text(n as u32)
    }
}

/// The fields of `s[from..]` between the separators `sep`, each as the
/// positions where it begins and ends.
pub fn split_fields(s: &str, from: usize, sep: char) -> (fields: Vec<(usize, usize)>)
    requires
        s.is_ascii(),
        from <= s@.len(),
    ensures
        fields@.len() == split(s@.subrange(from as int, s@.len() as int), sep).len(),
        fields@.len() >= 1,
        forall|i: int|
            0 <= i < fields@.len() ==> from <= (#[trigger] fields@[i]).0 <= fields@[i].1
                <= s@.len(),
        forall|i: int|
            0 <= i < fields@.len() ==> s@.subrange(
                (#[trigger] fields@[i]).0 as int,
                fields@[i].1 as int,
            ) == split(s@.subrange(from as int, s@.len() as int), sep)[i],
{
    let n = char_len(s);
    let ghost whole = s@.subrange(from as int, n as int);
    let mut fields: Vec<(usize, usize)> = Vec::new();
    let ghost mut texts: Seq<Seq<char>> = Seq::empty();
    let mut pos: usize = from;
    loop
        invariant
            s.is_ascii(),
            n == s@.len(),
            from <= pos <= n,
            whole == s@.subrange(from as int, n as int),
            split(whole, sep) == texts + split(s@.subrange(pos as int, n as int), sep),
            fields@.len() == texts.len(),
            forall|i: int|
                0 <= i < fields@.len() ==> from <= (#[trigger] fields@[i]).0 <= fields@[i].1 <= n,
            forall|i: int|
                0 <= i < fields@.len() ==> s@.subrange(
                    (#[trigger] fields@[i]).0 as int,
                    fields@[i].1 as int,
                ) == texts[i],
        decreases n - pos,
    {
        let k = index_of(s, sep, pos);
        let ghost rest = s@.subrange(pos as int, n as int);
        let ghost field = s@.subrange(pos as int, k as int);
        proof {
            assert(field =~= rest.subrange(0, k - pos));
            if k < n {
                assert(rest.subrange(k - pos + 1, rest.len() as int) =~= s@.subrange(
                    k + 1,
                    n as int,
                ));
                assert(split(rest, sep) == seq![field] + split(s@.subrange(k + 1, n as int), sep));
                assert(texts + (seq![field] + split(s@.subrange(k + 1, n as int), sep))
                    =~= texts.push(field) + split(s@.subrange(k + 1, n as int), sep));
            } else {
                assert(field =~= rest);
                assert(split(rest, sep) == seq![rest]);
                assert(texts + seq![field] =~= texts.push(field));
            }
        }
        fields.push((pos, k));
        proof {
            texts = texts.push(field);
        }
        if k == n {
            return fields;
        }
        pos = k + 1;
    }
}

/// Reads `s[from..]` as a `:`-separated list of unsigned 8-bit numerals.
pub fn parse_u8_list(s: &str, from: usize) -> (r: Option<Vec<u8>>)
    requires
        s.is_ascii(),
        from <= s@.len(),
    ensures
        match u8_list(s@.subrange(from as int, s@.len() as int)) {
            Some(numbers) => r matches Some(v) && v@ == numbers,
            None => r is None,
        },
{
    let fields = split_fields(s, from, ':');
    let ghost texts = split(s@.subrange(from as int, s@.len() as int), ':');
    let mut numbers: Vec<u8> = Vec::new();
    let mut i: usize = 0;
    while i < fields.len()
        invariant
            s.is_ascii(),
            i <= fields@.len(),
            texts == split(s@.subrange(from as int, s@.len() as int), ':'),
            fields@.len() == texts.len(),
            forall|j: int|
                0 <= j < fields@.len() ==> from <= (#[trigger] fields@[j]).0 <= fields@[j].1
                    <= s@.len(),
            forall|j: int|
                0 <= j < fields@.len() ==> s@.subrange(
                    (#[trigger] fields@[j]).0 as int,
                    fields@[j].1 as int,
                ) == texts[j],
            numbers@.len() == i,
            forall|j: int| 0 <= j < i ==> u8_of(texts[j]) == Some(#[trigger] numbers@[j]),
        decreases fields@.len() - i,
    {
        let (a, b) = fields[i];
        match parse_u8(s, a, b) {
            Some(v) => {
                numbers.push(v);
            },
            None => {
                assert(u8_of(texts[i as int]) is None);
                return None;
            },
        }
        i += 1;
    }
    proof {
        assert forall|j: int| 0 <= j < texts.len() implies (#[trigger] u8_of(texts[j])) is Some by {
            assert(u8_of(texts[j]) == Some(numbers@[j]));
        }
        assert(numbers@ =~= Seq::new(texts.len(), |j: int| u8_of(texts[j])->0)) by {
            assert forall|j: int| 0 <= j < texts.len() implies numbers@[j] == u8_of(texts[j])->0 by {
                assert(u8_of(texts[j]) == Some(numbers@[j]));
            }
        }
    }
    Some(numbers)
}

/// Reads `s[from..]` as a `:`-separated list of signed 8-bit numerals.
pub fn parse_i8_list(s: &str, from: usize) -> (r: Option<Vec<i8>>)
    requires
        s.is_ascii(),
        from <= s@.len(),
    ensures
        match i8_list(s@.subrange(from as int, s@.len() as int)) {
            Some(numbers) => r matches Some(v) && v@ == numbers,
            None => r is None,
        },
{
    let fields = split_fields(s, from, ':');
    let ghost texts = split(s@.subrange(from as int, s@.len() as int), ':');
    let mut numbers: Vec<i8> = Vec::new();
    let mut i: usize = 0;
    while i < fields.len()
        invariant
            s.is_ascii(),
            i <= fields@.len(),
            texts == split(s@.subrange(from as int, s@.len() as int), ':'),
            fields@.len() == texts.len(),
            forall|j: int|
                0 <= j < fields@.len() ==> from <= (#[trigger] fields@[j]).0 <= fields@[j].1
                    <= s@.len(),
            forall|j: int|
                0 <= j < fields@.len() ==> s@.subrange(
                    (#[trigger] fields@[j]).0 as int,
                    fields@[j].1 as int,
                ) == texts[j],
            numbers@.len() == i,
            forall|j: int| 0 <= j < i ==> i8_of(texts[j]) == Some(#[trigger] numbers@[j]),
        decreases fields@.len() - i,
    {
        let (a, b) = fields[i];
        match parse_i8(s, a, b) {
            Some(v) => {
                numbers.push(v);
            },
            None => {
                assert(i8_of(texts[i as int]) is None);
                return None;
            },
        }
        i += 1;
    }
    proof {
        assert forall|j: int| 0 <= j < texts.len() implies (#[trigger] i8_of(texts[j])) is Some by {
            assert(i8_of(texts[j]) == Some(numbers@[j]));
        }
        assert(numbers@ =~= Seq::new(texts.len(), |j: int| i8_of(texts[j])->0)) by {
            assert forall|j: int| 0 <= j < texts.len() implies numbers@[j] == i8_of(texts[j])->0 by {
                assert(i8_of(texts[j]) == Some(numbers@[j]));
            }
        }
    }
    Some(numbers)
}

} // verus!
