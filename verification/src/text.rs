//! Small operations on strings, stated over their characters.
use vstd::prelude::*;
use vstd::string::*;
use vstd::utf8::*;

verus! {

/// `String::push`: appends one character.
pub assume_specification[ std::string::String::push ](s: &mut std::string::String, c: char)
    ensures
        final(s)@ == old(s)@.push(c),
;

/// Two character sequences with the same encoding are the same sequence.
pub proof fn lemma_encode_injective(a: Seq<char>, b: Seq<char>)
    requires
        encode_utf8(a) == encode_utf8(b),
    ensures
        a == b,
{
    encode_utf8_decode_utf8(a);
    encode_utf8_decode_utf8(b);
}

/// Whether two strings hold the same characters.
pub fn str_eq(a: &str, b: &str) -> (r: bool)
    ensures
        r == (a@ == b@),
{
    let x = a.as_bytes();
    let y = b.as_bytes();
    if x.len() != y.len() {
        return false;
    }
    let mut i: usize = 0;
    while i < x.len()
        invariant
            x@.len() == y@.len(),
            i <= x@.len(),
            x@ == encode_utf8(a@),
            y@ == encode_utf8(b@),
            forall|j: int| 0 <= j < i ==> x@[j] == y@[j],
        decreases x@.len() - i,
    {
        if x[i] != y[i] {
            return false;
        }
        i += 1;
    }
    proof {
        assert(x@ =~= y@);
        lemma_encode_injective(a@, b@);
    }
    true
}

/// The characters of a string.
pub fn chars_of(s: &str) -> (r: Vec<char>)
    ensures
        r@ == s@,
{
    let mut out: Vec<char> = Vec::new();
    for c in it: s.chars()
        invariant
            it.seq() == s@,
            out@ == s@.subrange(0, it.index() as int),
    {
        out.push(c);
        proof {
            assert(out@ =~= s@.subrange(0, it.index() as int + 1));
        }
    }
    proof {
        assert(s@.subrange(0, s@.len() as int) =~= s@);
    }
    out
}

/// A string of the characters between two positions.
pub fn string_of(chars: &[char], from: usize, to: usize) -> (r: String)
    requires
        from <= to <= chars@.len(),
    ensures
        r@ == chars@.subrange(from as int, to as int),
{
    let mut out = String::new();
    let mut i: usize = from;
    while i < to
        invariant
            from <= i <= to <= chars@.len(),
            out@ == chars@.subrange(from as int, i as int),
        decreases to - i,
    {
        out.push(chars[i]);
        i += 1;
        proof {
            assert(out@ =~= chars@.subrange(from as int, i as int));
        }
    }
    out
}

/// Position of the first occurrence of a character at or after `from`, or the length.
pub open spec fn index_from(s: Seq<char>, c: char, from: int) -> int
    decreases s.len() - from,
{
    if from < 0 || from >= s.len() {
        s.len() as int
    } else if s[from] == c {
        from
    } else {
        index_from(s, c, from + 1)
    }
}

/// Position of the first occurrence of a character, or the length.
pub open spec fn index_of(s: Seq<char>, c: char) -> int {
    index_from(s, c, 0)
}

/// What [`index_from`] finds.
pub proof fn lemma_index_from(s: Seq<char>, c: char, from: int)
    requires
        0 <= from <= s.len(),
    ensures
        from <= index_from(s, c, from) <= s.len(),
        index_from(s, c, from) < s.len() ==> s[index_from(s, c, from)] == c,
        forall|i: int| from <= i < index_from(s, c, from) ==> s[i] != c,
    decreases s.len() - from,
{
    if from < s.len() && s[from] != c {
        lemma_index_from(s, c, from + 1);
    }
}

/// Position of the first occurrence of a character at or after `from`, or the length.
pub fn find_char(s: &[char], c: char, from: usize) -> (r: usize)
    requires
        from <= s@.len(),
    ensures
        r == index_from(s@, c, from as int),
        from <= r <= s@.len(),
{
    let mut i: usize = from;
    while i < s.len()
        invariant
            from <= i <= s@.len(),
            index_from(s@, c, from as int) == index_from(s@, c, i as int),
        decreases s@.len() - i,
    {
        if s[i] == c {
            return i;
        }
        i += 1;
    }
    i
}

/// The parts before and after the first occurrence of a character.
pub open spec fn halves(s: Seq<char>, c: char) -> Option<(Seq<char>, Seq<char>)> {
    let at = index_of(s, c);
    if at < s.len() {
        Some((s.subrange(0, at), s.subrange(at + 1, s.len() as int)))
    } else {
        None
    }
}

/// The parts before and after the first occurrence of a character.
pub fn split_once<'a>(s: &'a str, c: char) -> (r: Option<(&'a str, &'a str)>)
    ensures
        match r {
            Some((a, b)) => halves(s@, c) == Some((a@, b@)),
            None => halves(s@, c) is None,
        },
{
    let chars = chars_of(s);
    let at: usize = find_char(chars.as_slice(), c, 0);
    if at < chars.len() {
        Some((s.substring_char(0, at), s.substring_char(at + 1, chars.len())))
    } else {
        None
    }
}

/// Whether one sequence stands in another at a position.
pub open spec fn stands_at(s: Seq<char>, needle: Seq<char>, at: int) -> bool {
    0 <= at && at + needle.len() <= s.len() && s.subrange(at, at + needle.len()) == needle
}

/// Whether one sequence stands somewhere in another.
pub open spec fn holds(s: Seq<char>, needle: Seq<char>) -> bool {
    exists|at: int| #[trigger] stands_at(s, needle, at)
}

/// Whether one sequence stands in another at a position.
pub fn occurs_at(s: &[char], needle: &[char], at: usize) -> (r: bool)
    ensures
        r == stands_at(s@, needle@, at as int),
{
    if at > s.len() || needle.len() > s.len() - at {
        return false;
    }
    let n: usize = s.len();
    let mut i: usize = 0;
    while i < needle.len()
        invariant
            n == s@.len(),
            at + needle@.len() <= s@.len(),
            i <= needle@.len(),
            forall|k: int| 0 <= k < i ==> s@[at + k] == needle@[k],
        decreases needle@.len() - i,
    {
        if s[at + i] != needle[i] {
            proof {
                let w = s@.subrange(at as int, at + needle@.len());
                assert(w[i as int] == s@[at + i]);
            }
            return false;
        }
        i += 1;
    }
    proof {
        assert(s@.subrange(at as int, at + needle@.len()) =~= needle@);
    }
    true
}

/// First position at or after `from` where a sequence stands in another, or one past the end.
pub open spec fn search_from(s: Seq<char>, needle: Seq<char>, from: int) -> int
    decreases s.len() + 1 - from,
{
    if from < 0 || from > s.len() {
        s.len() as int + 1
    } else if stands_at(s, needle, from) {
        from
    } else {
        search_from(s, needle, from + 1)
    }
}

/// What [`search_from`] finds.
pub proof fn lemma_search_from(s: Seq<char>, needle: Seq<char>, from: int)
    requires
        0 <= from <= s.len() + 1,
    ensures
        from <= search_from(s, needle, from) <= s.len() + 1,
        search_from(s, needle, from) <= s.len() ==> stands_at(
            s,
            needle,
            search_from(s, needle, from),
        ),
        forall|i: int| from <= i < search_from(s, needle, from) ==> !stands_at(s, needle, i),
    decreases s.len() + 1 - from,
{
    if from <= s.len() && !stands_at(s, needle, from) {
        lemma_search_from(s, needle, from + 1);
    }
}

/// First position at or after `from` where a sequence stands in another.
pub fn search(s: &[char], needle: &[char], from: usize) -> (r: Option<usize>)
    requires
        from <= s@.len(),
    ensures
        match r {
            Some(at) => at == search_from(s@, needle@, from as int) && from <= at <= s@.len(),
            None => search_from(s@, needle@, from as int) == s@.len() + 1,
        },
{
    let mut i: usize = from;
    loop
        invariant
            from <= i <= s@.len(),
            search_from(s@, needle@, from as int) == search_from(s@, needle@, i as int),
        decreases s@.len() - i,
    {
        if occurs_at(s, needle, i) {
            return Some(i);
        }
        if i == s.len() {
            proof {
                assert(search_from(s@, needle@, i + 1) == s@.len() + 1);
            }
            return None;
        }
        i += 1;
    }
}

/// Whether a string holds another.
pub fn contains(s: &str, needle: &str) -> (r: bool)
    ensures
        r == holds(s@, needle@),
{
    let a = chars_of(s);
    let b = chars_of(needle);
    proof {
        lemma_search_from(s@, needle@, 0);
    }
    match search(a.as_slice(), b.as_slice(), 0) {
        Some(at) => {
            assert(stands_at(s@, needle@, at as int));
            true
        },
        None => {
            assert forall|at: int| !stands_at(s@, needle@, at) by {}
            false
        },
    }
}

/// What follows a prefix.
pub open spec fn after_prefix(s: Seq<char>, prefix: Seq<char>) -> Option<Seq<char>> {
    if stands_at(s, prefix, 0) {
        Some(s.subrange(prefix.len() as int, s.len() as int))
    } else {
        None
    }
}

/// What follows a prefix; none where the string does not start with it.
pub fn strip_prefix<'a>(s: &'a str, prefix: &str) -> (r: Option<&'a str>)
    ensures
        match r {
            Some(rest) => after_prefix(s@, prefix@) == Some(rest@),
            None => after_prefix(s@, prefix@) is None,
        },
{
    let a = chars_of(s);
    let b = chars_of(prefix);
    if occurs_at(a.as_slice(), b.as_slice(), 0) {
        Some(s.substring_char(b.len(), a.len()))
    } else {
        None
    }
}

/// The digit of a number below ten.
pub open spec fn digit(n: nat) -> char {
    ('0' as u32 + n) as char
}

/// The decimal digits of a number.
pub open spec fn decimal_digits(n: nat) -> Seq<char>
    decreases n,
{
    if n < 10 {
        seq![digit(n)]
    } else {
        decimal_digits(n / 10).push(digit(n % 10))
    }
}

/// The decimal text of an integer.
pub open spec fn decimal_text(n: int) -> Seq<char> {
    if n < 0 {
        seq!['-'] + decimal_digits((-n) as nat)
    } else {
        decimal_digits(n as nat)
    }
}

fn digit_char(n: u64) -> (r: char)
    requires
        n < 10,
    ensures
        r == digit(n as nat),
{
    if n == 0 {
        '0'
    } else if n == 1 {
        '1'
    } else if n == 2 {
        '2'
    } else if n == 3 {
        '3'
    } else if n == 4 {
        '4'
    } else if n == 5 {
        '5'
    } else if n == 6 {
        '6'
    } else if n == 7 {
        '7'
    } else if n == 8 {
        '8'
    } else {
        '9'
    }
}

/// Appends the decimal digits of a number.
pub fn push_decimal(out: &mut String, n: u64)
    ensures
        final(out)@ == old(out)@ + decimal_text(n as int),
    decreases n,
{
    if n >= 10 {
        push_decimal(out, n / 10);
    }
    out.push(digit_char(n % 10));
    proof {
        assert(out@ =~= old(out)@ + decimal_text(n as int));
    }
}

/// The decimal text of a number.
pub fn decimal_u64(n: u64) -> (r: String)
    ensures
        r@ == decimal_text(n as int),
{
    let mut out = String::new();
    push_decimal(&mut out, n);
    proof {
        assert(out@ =~= decimal_text(n as int));
    }
    out
}

/// The decimal text of a signed number.
pub fn decimal_i64(n: i64) -> (r: String)
    ensures
        r@ == decimal_text(n as int),
{
    let mut out = String::new();
    if n < 0 {
        out.push('-');
        let magnitude: u64 = (-(n as i128)) as u64;
        push_decimal(&mut out, magnitude);
    } else {
        push_decimal(&mut out, n as u64);
    }
    proof {
        assert(out@ =~= decimal_text(n as int));
    }
    out
}

/// The value of a digit.
pub open spec fn digit_value(c: char) -> Option<int> {
    if '0' <= c <= '9' {
        Some(c as u32 - '0' as u32)
    } else {
        None
    }
}

/// The number that a run of decimal digits denotes; none where another character occurs.
pub open spec fn digits_value(s: Seq<char>) -> Option<int>
    decreases s.len(),
{
    if s.len() == 0 {
        Some(0)
    } else {
        match (digits_value(s.drop_last()), digit_value(s.last())) {
            (Some(high), Some(low)) => Some(10 * high + low),
            _ => None,
        }
    }
}

/// The integer that a decimal text denotes: an optional sign, then at least one digit; none
/// where the text has another form or the number does not fit an `i64`.
pub open spec fn parsed_i64(s: Seq<char>) -> Option<i64> {
    let signed = s.len() > 0 && (s[0] == '-' || s[0] == '+');
    let digits = if signed {
        s.subrange(1, s.len() as int)
    } else {
        s
    };
    if digits.len() == 0 {
        None
    } else {
        match digits_value(digits) {
            Some(n) => {
                let value = if signed && s[0] == '-' {
                    -n
                } else {
                    n
                };
                if i64::MIN <= value <= i64::MAX {
                    Some(value as i64)
                } else {
                    None
                }
            },
            None => None,
        }
    }
}

proof fn lemma_digits_prefix(s: Seq<char>, n: int)
    requires
        0 <= n <= s.len(),
        digits_value(s) is Some,
    ensures
        digits_value(s.subrange(0, n)) is Some,
        0 <= digits_value(s.subrange(0, n))->0 <= digits_value(s)->0,
    decreases s.len(),
{
    if n == s.len() {
        assert(s.subrange(0, n) =~= s);
        if s.len() > 0 {
            assert(s.drop_last() =~= s.drop_last().subrange(0, s.len() - 1));
            lemma_digits_prefix(s.drop_last(), s.len() - 1);
        }
    } else {
        lemma_digits_prefix(s.drop_last(), n);
        assert(s.drop_last().subrange(0, n) =~= s.subrange(0, n));
    }
}

/// Decimal digits denote the number that they were written for, so no two numbers share them.
pub proof fn lemma_decimal_value(n: nat)
    ensures
        digits_value(decimal_digits(n)) == Some(n as int),
        decimal_digits(n).len() > 0,
    decreases n,
{
    let s = decimal_digits(n);
    assert(digit_value(digit(n % 10)) == Some((n % 10) as int));
    if n < 10 {
        assert(s.drop_last() =~= Seq::<char>::empty());
        assert(digits_value(s.drop_last()) == Some(0int));
        assert(s.last() == digit(n));
    } else {
        lemma_decimal_value(n / 10);
        assert(s.drop_last() =~= decimal_digits(n / 10));
    }
}

/// Reads a decimal integer.
pub fn parse_i64(s: &str) -> (r: Option<i64>)
    ensures
        r == parsed_i64(s@),
{
    let chars = chars_of(s);
    let mut negative = false;
    let mut start: usize = 0;
    if chars.len() > 0 && (chars[0] == '-' || chars[0] == '+') {
        negative = chars[0] == '-';
        start = 1;
    }
    if start == chars.len() {
        return None;
    }
    let ghost digits = s@.subrange(start as int, s@.len() as int);
    proof {
        assert(start == 0 ==> digits =~= s@);
    }
    let mut value: i128 = 0;
    let mut i: usize = start;
    while i < chars.len()
        invariant
            chars@ == s@,
            start <= i <= s@.len(),
            start <= 1,
            start < s@.len(),
            (start == 1) == (s@.len() > 0 && (s@[0] == '-' || s@[0] == '+')),
            negative == (start == 1 && s@[0] == '-'),
            start == 0 ==> digits == s@,
            digits == s@.subrange(start as int, s@.len() as int),
            0 <= value <= 0x8000_0000_0000_0000,
            digits_value(digits.subrange(0, i - start)) == Some(value as int),
        decreases s@.len() - i,
    {
        let c = chars[i];
        proof {
            let part = digits.subrange(0, i - start + 1);
            assert(part.drop_last() =~= digits.subrange(0, i - start));
            assert(part.last() == c);
        }
        if !('0' <= c && c <= '9') {
            proof {
                if digits_value(digits) is Some {
                    lemma_digits_prefix(digits, i - start + 1);
                }
            }
            return None;
        }
        value = value * 10 + (c as u32 - '0' as u32) as i128;
        if value > 0x8000_0000_0000_0000 {
            proof {
                if digits_value(digits) is Some {
                    lemma_digits_prefix(digits, i - start + 1);
                }
            }
            return None;
        }
        i += 1;
    }
    proof {
        assert(digits.subrange(0, digits.len() as int) =~= digits);
    }
    if negative {
        Some((-value) as i64)
    } else if value <= 0x7fff_ffff_ffff_ffff {
        Some(value as i64)
    } else {
        None
    }
}

/// Two strings one after the other.
pub fn concat(a: &str, b: &str) -> (r: String)
    ensures
        r@ == a@ + b@,
{
    let mut out = a.to_owned();
    out.append(b);
    out
}

/// What `{:?}` prints of a string.
pub uninterp spec fn debug_quoted(text: Seq<char>) -> Seq<char>;

/// `format!` with `{:?}` on a string: its text alone decides what is printed.
#[verifier::external_body]
pub(crate) fn quote_debug(text: &str) -> (r: String)
    ensures
        r@ == debug_quoted(text@),
{
    format!("{:?}", text)
}

/// A text is split at the first occurrence of a character: what stands before it does not contain
/// it, and the parts put together again give the text.
pub proof fn law_a_text_is_split_at_the_first_occurrence(a: Seq<char>, b: Seq<char>, c: char)
    requires
        !a.contains(c),
    ensures
        halves(a, c) is None,
        halves(a + seq![c] + b, c) == Some((a, b)),
{
    lemma_index_from(a, c, 0);
    if index_of(a, c) < a.len() {
        assert(a.contains(a[index_of(a, c)]));
    }
    let s = a + seq![c] + b;
    lemma_index_from(s, c, 0);
    let at = index_of(s, c);
    assert(s[a.len() as int] == c);
    if at < a.len() {
        assert(s[at] == a[at]);
        assert(a.contains(a[at]));
    }
    assert(at == a.len());
    assert(s.subrange(0, at) =~= a);
    assert(s.subrange(at + 1, s.len() as int) =~= b);
}

/// What follows a prefix is the rest of the text, and a text that does not start with it has none.
pub proof fn law_a_prefix_is_taken_off(prefix: Seq<char>, rest: Seq<char>, s: Seq<char>)
    ensures
        after_prefix(prefix + rest, prefix) == Some(rest),
        after_prefix(s, prefix) matches Some(left) ==> s == prefix + left,
{
    let long = prefix + rest;
    assert(long.subrange(0, prefix.len() as int) =~= prefix);
    assert(long.subrange(prefix.len() as int, long.len() as int) =~= rest);
    if after_prefix(s, prefix) is Some {
        assert(s =~= prefix + after_prefix(s, prefix)->0);
    }
}

/// A text contains another where it is that text with something before and after it.
pub proof fn law_what_a_text_contains(a: Seq<char>, needle: Seq<char>, b: Seq<char>, s: Seq<char>)
    ensures
        holds(a + needle + b, needle),
        holds(s, needle) ==> exists|x: Seq<char>, y: Seq<char>| s == #[trigger] ((x + needle) + y),
{
    let long = a + needle + b;
    assert(long.subrange(a.len() as int, (a.len() + needle.len()) as int) =~= needle);
    assert(stands_at(long, needle, a.len() as int));
    if holds(s, needle) {
        let at = choose|at: int| #[trigger] stands_at(s, needle, at);
        let x = s.subrange(0, at);
        let y = s.subrange(at + needle.len(), s.len() as int);
        assert(s =~= (x + needle) + y);
    }
}

/// Numbers are written in decimal: one digit below ten, and else the digits of a tenth, then the
/// last digit; a minus before a negative one.
pub proof fn law_numbers_are_written_in_decimal(n: nat, d: nat)
    requires
        d < 10,
    ensures
        decimal_text(d as int) == seq![(48 + d) as char],
        n > 0 ==> decimal_text((10 * n + d) as int) == decimal_text(n as int).push(
            (48 + d) as char,
        ),
        n > 0 ==> decimal_text(-(n as int)) == seq!['-'] + decimal_text(n as int),
{
    if n > 0 {
        assert((10 * n + d) / 10 == n);
        assert((10 * n + d) % 10 == d);
    }
}

/// A number that is written is read back, with or without a sign.
pub proof fn law_a_written_number_is_read_back(n: i64)
    ensures
        parsed_i64(decimal_text(n as int)) == Some(n),
        n >= 0 ==> parsed_i64(seq!['+'] + decimal_text(n as int)) == Some(n),
        parsed_i64(Seq::empty()) is None,
{
    let size = if n < 0 {
        (-(n as int)) as nat
    } else {
        n as nat
    };
    let digits = decimal_digits(size);
    lemma_decimal_value(size);
    lemma_first_digit(size);
    let minus = seq!['-'] + digits;
    let plus = seq!['+'] + digits;
    assert(minus.subrange(1, minus.len() as int) =~= digits);
    assert(plus.subrange(1, plus.len() as int) =~= digits);
}

proof fn lemma_first_digit(n: nat)
    ensures
        decimal_digits(n).len() > 0,
        '0' <= decimal_digits(n)[0] <= '9',
    decreases n,
{
    if n >= 10 {
        lemma_first_digit(n / 10);
    }
}

/// What is no number: nothing at all, a sign alone, anything but digits after the sign, and what
/// does not fit.
pub proof fn law_what_is_no_number(s: Seq<char>, c: char, n: int)
    requires
        s.len() > 0,
        '0' <= s[0] <= '9',
    ensures
        parsed_i64(seq!['-']) is None,
        parsed_i64(seq!['+']) is None,
        !('0' <= c <= '9') ==> parsed_i64(s.push(c)) is None && parsed_i64(
            seq!['-'] + s.push(c),
        ) is None,
        digits_value(s) == Some(n) && n > i64::MAX ==> parsed_i64(s) is None,
        digits_value(s) == Some(n) && n <= i64::MAX ==> parsed_i64(s) == Some(n as i64),
        digits_value(s) == Some(n) && '0' <= c <= '9' ==> digits_value(s.push(c)) == Some(
            10 * n + (c as u32 - 48),
        ),
        digits_value(s) == Some(n) ==> n >= 0,
{
    lemma_digits_not_negative(s);
    assert(s.push(c).drop_last() =~= s);
    let minus = seq!['-'] + s.push(c);
    assert(minus.subrange(1, minus.len() as int) =~= s.push(c));
    assert(seq!['-'].subrange(1, 1) =~= Seq::<char>::empty());
}

proof fn lemma_digits_not_negative(s: Seq<char>)
    ensures
        digits_value(s) matches Some(n) ==> n >= 0,
    decreases s.len(),
{
    if s.len() > 0 {
        lemma_digits_not_negative(s.drop_last());
    }
}

} // verus!
