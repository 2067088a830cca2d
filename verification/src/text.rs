//! Character-sequence toolkit: trimming, decimal parsing and rendering,
//! substring search and line splitting, each with its meaning stated over
//! `Seq<char>`.

use vstd::prelude::*;
use vstd::string::StringExecFns;

verus! {

/// Whether `c` carries the Unicode `White_Space` property.
pub open spec fn is_whitespace(c: char) -> bool {
    let n = c as u32;
    ||| 0x09 <= n <= 0x0D
    ||| n == 0x20
    ||| n == 0x85
    ||| n == 0xA0
    ||| n == 0x1680
    ||| 0x2000 <= n <= 0x200A
    ||| n == 0x2028
    ||| n == 0x2029
    ||| n == 0x202F
    ||| n == 0x205F
    ||| n == 0x3000
}

/// `s` without its leading whitespace.
pub open spec fn trim_start(s: Seq<char>) -> Seq<char>
    decreases s.len(),
{
    if s.len() > 0 && is_whitespace(s.first()) {
        trim_start(s.drop_first())
    } else {
        s
    }
}

/// `s` without its trailing whitespace.
pub open spec fn trim_end(s: Seq<char>) -> Seq<char>
    decreases s.len(),
{
    if s.len() > 0 && is_whitespace(s.last()) {
        trim_end(s.drop_last())
    } else {
        s
    }
}

/// `s` without leading and trailing whitespace.
pub open spec fn trim(s: Seq<char>) -> Seq<char> {
    trim_end(trim_start(s))
}

/// Whether `c` is one of the ASCII digits `0` to `9`.
pub open spec fn is_digit(c: char) -> bool {
    '0' <= c <= '9'
}

/// The number that the ASCII digit `c` stands for.
pub open spec fn digit_value(c: char) -> nat {
    (c as u32 - '0' as u32) as nat
}

/// The number that a sequence of ASCII digits writes in base ten.
pub open spec fn decimal_value(digits: Seq<char>) -> nat
    decreases digits.len(),
{
    if digits.len() == 0 {
        0
    } else {
        10 * decimal_value(digits.drop_last()) + digit_value(digits.last())
    }
}

/// The digits of an unsigned number: `s` after one optional leading `+`.
pub open spec fn unsigned_digits(s: Seq<char>) -> Seq<char> {
    if s.len() > 0 && s.first() == '+' {
        s.drop_first()
    } else {
        s
    }
}

/// Whether `s` writes an unsigned decimal number: an optional `+`, then one
/// or more ASCII digits and nothing else.
pub open spec fn is_unsigned_decimal(s: Seq<char>) -> bool {
    let digits = unsigned_digits(s);
    digits.len() > 0 && forall|i: int| 0 <= i < digits.len() ==> is_digit(#[trigger] digits[i])
}

/// The `u64` that `s` writes, if it writes one that fits.
pub open spec fn parse_u64_spec(s: Seq<char>) -> Option<u64> {
    if is_unsigned_decimal(s) && decimal_value(unsigned_digits(s)) <= u64::MAX {
        Some(decimal_value(unsigned_digits(s)) as u64)
    } else {
        None
    }
}

/// The `u32` that `s` writes, if it writes one that fits.
pub open spec fn parse_u32_spec(s: Seq<char>) -> Option<u32> {
    if is_unsigned_decimal(s) && decimal_value(unsigned_digits(s)) <= u32::MAX {
        Some(decimal_value(unsigned_digits(s)) as u32)
    } else {
        None
    }
}

/// Whether `pattern` stands in `s` at index `at`.
pub open spec fn occurs_at(s: Seq<char>, pattern: Seq<char>, at: int) -> bool {
    0 <= at && at + pattern.len() <= s.len() && s.subrange(at, at + pattern.len()) == pattern
}

/// Whether `pattern` stands somewhere in `s`.
pub open spec fn contains(s: Seq<char>, pattern: Seq<char>) -> bool {
    exists|at: int| occurs_at(s, pattern, at)
}

/// Whether `s` begins with `prefix`.
pub open spec fn starts_with(s: Seq<char>, prefix: Seq<char>) -> bool {
    occurs_at(s, prefix, 0)
}

/// The characters of `s` before its first whitespace character.
pub open spec fn leading_word(s: Seq<char>) -> Seq<char>
    decreases s.len(),
{
    if s.len() > 0 && !is_whitespace(s.first()) {
        seq![s.first()] + leading_word(s.drop_first())
    } else {
        Seq::empty()
    }
}

/// The first whitespace-delimited word of `s`; empty where `s` has none.
pub open spec fn first_word(s: Seq<char>) -> Seq<char> {
    leading_word(trim_start(s))
}

/// The number of characters of `s` before its first `stop`; the length of
/// `s` where it holds none.
pub open spec fn field_len(s: Seq<char>, stop: char) -> nat
    decreases s.len(),
{
    if s.len() > 0 && s.first() != stop {
        1 + field_len(s.drop_first(), stop)
    } else {
        0
    }
}

/// The number of characters of `s` before its first line feed.
pub open spec fn first_line_len(s: Seq<char>) -> nat {
    field_len(s, '\n')
}

/// The character that writes the digit `d`.
pub open spec fn digit_char(d: nat) -> char
    recommends
        d < 10,
{
    if d == 0 {
        '0'
    } else if d == 1 {
        '1'
    } else if d == 2 {
        '2'
    } else if d == 3 {
        '3'
    } else if d == 4 {
        '4'
    } else if d == 5 {
        '5'
    } else if d == 6 {
        '6'
    } else if d == 7 {
        '7'
    } else if d == 8 {
        '8'
    } else {
        '9'
    }
}

/// The digits that write `n` in base ten, without leading zeros.
pub open spec fn decimal_digits(n: nat) -> Seq<char>
    decreases n,
{
    if n < 10 {
        seq![digit_char(n)]
    } else {
        decimal_digits(n / 10).push(digit_char(n % 10))
    }
}

/// Whether `c` is whitespace.
pub fn char_is_whitespace(c: char) -> (b: bool)
    ensures
        b == is_whitespace(c),
{
    let n: u32 = c as u32;
    (0x09 <= n && n <= 0x0D) || n == 0x20 || n == 0x85 || n == 0xA0 || n == 0x1680 || (0x2000 <= n
        && n <= 0x200A) || n == 0x2028 || n == 0x2029 || n == 0x202F || n == 0x205F || n == 0x3000
}

/// The characters of `s`, one by one.
pub fn to_chars(s: &str) -> (chars: Vec<char>)
    ensures
        chars@ == s@,
{
    let mut chars: Vec<char> = Vec::new();
    for c in it: s.chars()
        invariant
            chars@ == it.seq().take(it.index() as int),
            it.seq() == s@,
    {
        chars.push(c);
    }
    chars
}

proof fn lemma_trim_start_skip(s: Seq<char>, k: int)
    requires
        0 <= k <= s.len(),
        forall|i: int| 0 <= i < k ==> is_whitespace(#[trigger] s[i]),
    ensures
        trim_start(s) == trim_start(s.skip(k)),
    decreases k,
{
    if k > 0 {
        assert(is_whitespace(s[0]));
        let t = s.drop_first();
        assert forall|i: int| 0 <= i < k - 1 implies is_whitespace(#[trigger] t[i]) by {
            assert(t[i] == s[i + 1]);
        }
        lemma_trim_start_skip(t, k - 1);
        assert(t.skip(k - 1) =~= s.skip(k));
    } else {
        assert(s.skip(0) =~= s);
    }
}

proof fn lemma_trim_end_take(s: Seq<char>, k: int)
    requires
        0 <= k <= s.len(),
        forall|i: int| k <= i < s.len() ==> is_whitespace(#[trigger] s[i]),
    ensures
        trim_end(s) == trim_end(s.take(k)),
    decreases s.len() - k,
{
    if k < s.len() {
        assert(is_whitespace(s[s.len() - 1]));
        let t = s.drop_last();
        assert forall|i: int| k <= i < t.len() implies is_whitespace(#[trigger] t[i]) by {
            assert(t[i] == s[i]);
        }
        lemma_trim_end_take(t, k);
        assert(t.take(k) =~= s.take(k));
    } else {
        assert(s.take(k) =~= s);
    }
}

/// The bounds of `trim` in `chars`: the trimmed text runs from the first
/// index to the second.
pub fn trim_bounds(chars: &Vec<char>) -> (bounds: (usize, usize))
    ensures
        bounds.0 <= bounds.1 <= chars.len(),
        chars@.subrange(bounds.0 as int, bounds.1 as int) == trim(chars@),
{
    let n = chars.len();
    let mut start: usize = 0;
    while start < n && char_is_whitespace(chars[start])
        invariant
            start <= n,
            n == chars.len(),
            forall|i: int| 0 <= i < start ==> is_whitespace(#[trigger] chars@[i]),
        decreases n - start,
    {
        start += 1;
    }
    let mut end: usize = n;
    while end > start && char_is_whitespace(chars[end - 1])
        invariant
            start <= end <= n,
            n == chars.len(),
            forall|i: int| end <= i < n ==> is_whitespace(#[trigger] chars@[i]),
        decreases end,
    {
        end -= 1;
    }
    proof {
        let s = chars@;
        lemma_trim_start_skip(s, start as int);
        let rest = s.skip(start as int);
        assert(trim_start(rest) == rest) by {
            if rest.len() > 0 {
                assert(rest.first() == s[start as int]);
            }
        }
        assert forall|i: int| end - start <= i < rest.len() implies is_whitespace(
            #[trigger] rest[i],
        ) by {
            assert(rest[i] == s[i + start]);
        }
        lemma_trim_end_take(rest, end - start);
        let core = rest.take(end - start);
        assert(core =~= s.subrange(start as int, end as int));
        assert(trim_end(core) == core) by {
            if core.len() > 0 {
                assert(core.last() == s[end - 1]);
            }
        }
    }
    (start, end)
}

/// A copy of `chars` from `from` up to `to`.
pub fn slice_chars(chars: &Vec<char>, from: usize, to: usize) -> (part: Vec<char>)
    requires
        from <= to <= chars.len(),
    ensures
        part@ == chars@.subrange(from as int, to as int),
{
    let mut part: Vec<char> = Vec::new();
    let mut i: usize = from;
    while i < to
        invariant
            from <= i <= to <= chars.len(),
            part@ == chars@.subrange(from as int, i as int),
        decreases to - i,
    {
        part.push(chars[i]);
        i += 1;
        assert(chars@.subrange(from as int, i as int) =~= chars@.subrange(from as int, i - 1).push(
            chars@[i - 1],
        ));
    }
    part
}

/// `chars` without leading and trailing whitespace.
pub fn trim_chars(chars: &Vec<char>) -> (trimmed: Vec<char>)
    ensures
        trimmed@ == trim(chars@),
{
    let (start, end) = trim_bounds(chars);
    slice_chars(chars, start, end)
}

/// Whether the two texts hold the same characters.
pub fn chars_equal(a: &Vec<char>, b: &Vec<char>) -> (same: bool)
    ensures
        same == (a@ == b@),
{
    if a.len() != b.len() {
        return false;
    }
    let mut i: usize = 0;
    while i < a.len()
        invariant
            i <= a.len(),
            a.len() == b.len(),
            forall|j: int| 0 <= j < i ==> a@[j] == b@[j],
        decreases a.len() - i,
    {
        if a[i] != b[i] {
            return false;
        }
        i += 1;
    }
    assert(a@ =~= b@);
    true
}

/// Whether `chars` spells `word`.
pub fn chars_spell(chars: &Vec<char>, word: &str) -> (same: bool)
    ensures
        same == (chars@ == word@),
{
    let other = to_chars(word);
    chars_equal(chars, &other)
}

/// Whether `pattern` stands in `chars` at index `at`.
pub fn chars_occur_at(chars: &Vec<char>, pattern: &Vec<char>, at: usize) -> (found: bool)
    ensures
        found == occurs_at(chars@, pattern@, at as int),
{
    if pattern.len() > chars.len() || at > chars.len() - pattern.len() {
        return false;
    }
    let mut i: usize = 0;
    while i < pattern.len()
        invariant
            i <= pattern.len(),
            at + pattern.len() <= chars.len(),
            forall|j: int| 0 <= j < i ==> chars@[at + j] == pattern@[j],
        decreases pattern.len() - i,
    {
        if chars[at + i] != pattern[i] {
            assert(chars@.subrange(at as int, at + pattern.len())[i as int] == chars@[at + i]);
            return false;
        }
        i += 1;
    }
    assert(chars@.subrange(at as int, at + pattern.len()) =~= pattern@);
    true
}

/// Whether `chars` begins with `prefix`.
pub fn chars_start_with(chars: &Vec<char>, prefix: &str) -> (found: bool)
    ensures
        found == starts_with(chars@, prefix@),
{
    let pattern = to_chars(prefix);
    chars_occur_at(chars, &pattern, 0)
}

/// Whether `pattern` stands somewhere in `chars`.
pub fn chars_contain(chars: &Vec<char>, pattern: &str) -> (found: bool)
    ensures
        found == contains(chars@, pattern@),
{
    let wanted = to_chars(pattern);
    if wanted.len() > chars.len() {
        return false;
    }
    if wanted.len() == 0 {
        assert(occurs_at(chars@, wanted@, 0)) by {
            assert(chars@.subrange(0, 0) =~= wanted@);
        }
        return true;
    }
    let last: usize = chars.len() - wanted.len();
    let mut at: usize = 0;
    while at <= last
        invariant
            at <= last + 1,
            last < chars.len(),
            last == chars.len() - wanted.len(),
            wanted@ == pattern@,
            forall|j: int| 0 <= j < at ==> !occurs_at(chars@, wanted@, j),
        decreases last + 1 - at,
    {
        if chars_occur_at(chars, &wanted, at) {
            return true;
        }
        at += 1;
    }
    false
}

proof fn lemma_decimal_value_push(digits: Seq<char>, c: char)
    ensures
        decimal_value(digits.push(c)) == 10 * decimal_value(digits) + digit_value(c),
{
    assert(digits.push(c).drop_last() =~= digits);
}

proof fn lemma_decimal_value_grows(digits: Seq<char>, k: int)
    requires
        0 <= k <= digits.len(),
    ensures
        decimal_value(digits.take(k)) <= decimal_value(digits),
    decreases digits.len() - k,
{
    if k < digits.len() {
        lemma_decimal_value_grows(digits.drop_last(), k);
        assert(digits.drop_last().take(k) =~= digits.take(k));
    } else {
        assert(digits.take(k) =~= digits);
    }
}

/// The `u64` that `chars` writes in base ten, if it writes one that fits.
pub fn parse_u64(chars: &Vec<char>) -> (value: Option<u64>)
    ensures
        value == parse_u64_spec(chars@),
{
    let n = chars.len();
    let first: usize = if n > 0 && chars[0] == '+' {
        1
    } else {
        0
    };
    let ghost digits = unsigned_digits(chars@);
    assert(digits =~= chars@.skip(first as int));
    if first == n {
        return None;
    }
    let mut value: u64 = 0;
    let mut i: usize = first;
    while i < n
        invariant
            first <= i <= n,
            n == chars.len(),
            digits == chars@.skip(first as int),
            digits == unsigned_digits(chars@),
            forall|j: int| 0 <= j < i - first ==> is_digit(#[trigger] digits[j]),
            value == decimal_value(digits.take(i - first)),
        decreases n - i,
    {
        let c = chars[i];
        assert(digits[i - first] == c);
        if !('0' <= c && c <= '9') {
            assert(!is_digit(digits[i - first]));
            return None;
        }
        let d: u64 = (c as u32 - '0' as u32) as u64;
        proof {
            assert(digits.take(i - first + 1) =~= digits.take(i - first).push(c));
            lemma_decimal_value_push(digits.take(i - first), c);
            lemma_decimal_value_grows(digits, i - first + 1);
        }
        if value > (u64::MAX - d) / 10 {
            assert(decimal_value(digits) > u64::MAX);
            return None;
        }
        value = value * 10 + d;
        i += 1;
    }
    assert(digits.take(n - first) =~= digits);
    Some(value)
}

/// The `u32` that `chars` writes in base ten, if it writes one that fits.
pub fn parse_u32(chars: &Vec<char>) -> (value: Option<u32>)
    ensures
        value == parse_u32_spec(chars@),
{
    match parse_u64(chars) {
        Some(wide) => {
            if wide <= u32::MAX as u64 {
                Some(wide as u32)
            } else {
                None
            }
        },
        None => None,
    }
}

proof fn lemma_leading_word_take(s: Seq<char>, k: int)
    requires
        0 <= k <= s.len(),
        forall|i: int| 0 <= i < k ==> !is_whitespace(#[trigger] s[i]),
        k < s.len() ==> is_whitespace(s[k]),
    ensures
        leading_word(s) == s.take(k),
    decreases k,
{
    if k > 0 {
        let t = s.drop_first();
        assert forall|i: int| 0 <= i < k - 1 implies !is_whitespace(#[trigger] t[i]) by {
            assert(t[i] == s[i + 1]);
        }
        if k - 1 < t.len() {
            assert(t[k - 1] == s[k]);
        }
        lemma_leading_word_take(t, k - 1);
        assert(seq![s.first()] + t.take(k - 1) =~= s.take(k));
    } else {
        assert(s.take(0) =~= Seq::<char>::empty());
    }
}

/// The first whitespace-delimited word of `chars`; empty where there is none.
pub fn first_word_of(chars: &Vec<char>) -> (word: Vec<char>)
    ensures
        word@ == first_word(chars@),
{
    let n = chars.len();
    let mut start: usize = 0;
    while start < n && char_is_whitespace(chars[start])
        invariant
            start <= n,
            n == chars.len(),
            forall|i: int| 0 <= i < start ==> is_whitespace(#[trigger] chars@[i]),
        decreases n - start,
    {
        start += 1;
    }
    let mut end: usize = start;
    while end < n && !char_is_whitespace(chars[end])
        invariant
            start <= end <= n,
            n == chars.len(),
            forall|i: int| start <= i < end ==> !is_whitespace(#[trigger] chars@[i]),
        decreases n - end,
    {
        end += 1;
    }
    proof {
        let s = chars@;
        lemma_trim_start_skip(s, start as int);
        let rest = s.skip(start as int);
        assert(trim_start(rest) == rest) by {
            if rest.len() > 0 {
                assert(rest.first() == s[start as int]);
            }
        }
        assert forall|i: int| 0 <= i < end - start implies !is_whitespace(#[trigger] rest[i]) by {
            assert(rest[i] == s[i + start]);
        }
        if end - start < rest.len() {
            assert(rest[end - start] == s[end as int]);
        }
        lemma_leading_word_take(rest, end - start);
        assert(rest.take(end - start) =~= s.subrange(start as int, end as int));
    }
    slice_chars(chars, start, end)
}

proof fn lemma_field_len(s: Seq<char>, stop: char, k: int)
    requires
        0 <= k <= s.len(),
        forall|i: int| 0 <= i < k ==> #[trigger] s[i] != stop,
        k < s.len() ==> s[k] == stop,
    ensures
        field_len(s, stop) == k,
    decreases k,
{
    if k > 0 {
        let t = s.drop_first();
        assert forall|i: int| 0 <= i < k - 1 implies #[trigger] t[i] != stop by {
            assert(t[i] == s[i + 1]);
        }
        if k - 1 < t.len() {
            assert(t[k - 1] == s[k]);
        }
        lemma_field_len(t, stop, k - 1);
    }
}

/// The index at which the field that begins at `from` ends: that of the
/// next `stop`, or the length of `chars` where none follows.
pub fn field_end(chars: &Vec<char>, from: usize, stop: char) -> (end: usize)
    requires
        from <= chars.len(),
    ensures
        from <= end <= chars.len(),
        end - from == field_len(chars@.skip(from as int), stop),
{
    let n = chars.len();
    let mut end: usize = from;
    while end < n && chars[end] != stop
        invariant
            from <= end <= n,
            n == chars.len(),
            forall|i: int| from <= i < end ==> #[trigger] chars@[i] != stop,
        decreases n - end,
    {
        end += 1;
    }
    proof {
        let rest = chars@.skip(from as int);
        assert forall|i: int| 0 <= i < end - from implies #[trigger] rest[i] != stop by {
            assert(rest[i] == chars@[i + from]);
        }
        if end - from < rest.len() {
            assert(rest[end - from] == chars@[end as int]);
        }
        lemma_field_len(rest, stop, end - from);
    }
    end
}

/// The index at which the line that begins at `from` ends: that of its line
/// feed, or the length of `chars` where no line feed follows.
pub fn line_end(chars: &Vec<char>, from: usize) -> (end: usize)
    requires
        from <= chars.len(),
    ensures
        from <= end <= chars.len(),
        end - from == first_line_len(chars@.skip(from as int)),
{
    field_end(chars, from, '\n')
}

fn digit_text(d: u8) -> (text: &'static str)
    requires
        d < 10,
    ensures
        text@ == seq![digit_char(d as nat)],
{
    proof {
        reveal_strlit("0");
        reveal_strlit("1");
        reveal_strlit("2");
        reveal_strlit("3");
        reveal_strlit("4");
        reveal_strlit("5");
        reveal_strlit("6");
        reveal_strlit("7");
        reveal_strlit("8");
        reveal_strlit("9");
    }
    let text = match d {
        0 => "0",
        1 => "1",
        2 => "2",
        3 => "3",
        4 => "4",
        5 => "5",
        6 => "6",
        7 => "7",
        8 => "8",
        _ => "9",
    };
    assert(text@ =~= seq![digit_char(d as nat)]);
    text
}

/// `n` written in base ten.
pub fn render_decimal(n: u64) -> (text: String)
    ensures
        text@ == decimal_digits(n as nat),
    decreases n,
{
    if n < 10 {
        return String::from_str(digit_text(n as u8));
    }
    let head = render_decimal(n / 10);
    let text = head.concat(digit_text((n % 10) as u8));
    assert(text@ =~= decimal_digits(n as nat));
    text
}

/// `String::push` of the standard library appends the character.
pub assume_specification[ String::push ](text: &mut String, ch: char)
    ensures
        final(text)@ == old(text)@.push(ch),
;

/// `String::pop` of the standard library removes the last character and
/// returns it; an empty string stays empty and gives `None`.
pub assume_specification[ String::pop ](text: &mut String) -> (last: Option<char>)
    ensures
        old(text)@.len() == 0 ==> last is None && final(text)@ == old(text)@,
        old(text)@.len() > 0 ==> last == Some(old(text)@.last()) && final(text)@ == old(
            text,
        )@.drop_last(),
;

/// The lowercase form of a text, as the Unicode character database maps it.
pub uninterp spec fn lowercase_of(text: Seq<char>) -> Seq<char>;

/// `str::to_lowercase` of the standard library. The contract only names the
/// result: it is the lowercase form of the argument, a function of the
/// argument's characters alone.
#[verifier::external_body]
pub(crate) fn to_lowercase(text: &str) -> (lowered: String)
    ensures
        lowered@ == lowercase_of(text@),
{
    text.to_lowercase()
}

/// Parsing undoes rendering: the digits that write a number are an unsigned
/// decimal number, and it is that number.
pub proof fn parse_inverts_render(n: nat)
    ensures
        is_unsigned_decimal(decimal_digits(n)),
        unsigned_digits(decimal_digits(n)) == decimal_digits(n),
        decimal_value(decimal_digits(n)) == n,
        n <= u64::MAX ==> parse_u64_spec(decimal_digits(n)) == Some(n as u64),
        n <= u32::MAX ==> parse_u32_spec(decimal_digits(n)) == Some(n as u32),
    decreases n,
{
    let digits = decimal_digits(n);
    if n < 10 {
        assert(digits.drop_last() =~= Seq::<char>::empty());
        assert(decimal_value(digits) == n) by {
            reveal_with_fuel(decimal_value, 2);
        }
    } else {
        let head = decimal_digits(n / 10);
        let last = digit_char(n % 10);
        parse_inverts_render(n / 10);
        assert(digits.first() == head.first());
        assert forall|i: int| 0 <= i < digits.len() implies is_digit(#[trigger] digits[i]) by {
            if i < head.len() {
                assert(digits[i] == head[i]);
            }
        }
        lemma_decimal_value_push(head, last);
    }
}

/// `dividend / divisor` rounded to the nearest whole number; a tie goes to
/// the even one.
pub open spec fn rounded_quotient(dividend: nat, divisor: nat) -> nat
    recommends
        divisor > 0,
{
    let whole = dividend / divisor;
    let rest = dividend % divisor;
    if 2 * rest > divisor || (2 * rest == divisor && whole % 2 == 1) {
        whole + 1
    } else {
        whole
    }
}

/// A number of tenths written with a point and one decimal.
pub open spec fn one_decimal(tenths: nat) -> Seq<char> {
    decimal_digits(tenths / 10) + seq!['.', digit_char(tenths % 10)]
}

/// A number of hundredths written with a point and two decimals.
pub open spec fn two_decimals(hundredths: nat) -> Seq<char> {
    decimal_digits(hundredths / 100) + seq![
        '.',
        digit_char(hundredths % 100 / 10),
        digit_char(hundredths % 10),
    ]
}

/// `size * scale / unit`, rounded to the nearest whole number.
pub fn scaled_quotient(size: u64, scale: u64, unit: u64) -> (count: u64)
    requires
        0 < scale <= unit,
    ensures
        count == rounded_quotient(size as nat * scale as nat, unit as nat),
{
    assert(size as int * scale as int <= 0xffff_ffff_ffff_ffff * 0xffff_ffff_ffff_ffff)
        by (nonlinear_arith)
        requires
            size <= 0xffff_ffff_ffff_ffff,
            scale <= 0xffff_ffff_ffff_ffff,
    ;
    let scaled: u128 = (size as u128) * (scale as u128);
    let whole: u128 = scaled / (unit as u128);
    let rest: u128 = scaled % (unit as u128);
    proof {
        assert(size as int * scale as int <= size as int * unit as int) by (nonlinear_arith)
            requires
                scale <= unit,
        ;
        vstd::arithmetic::div_mod::lemma_fundamental_div_mod(scaled as int, unit as int);
        assert(whole <= size) by (nonlinear_arith)
            requires
                scaled == unit * whole + rest,
                scaled <= size * unit,
                rest >= 0,
                unit > 0,
        ;
        if whole == size {
            assert(rest == 0) by (nonlinear_arith)
                requires
                    scaled == unit * whole + rest,
                    scaled <= size * unit,
                    whole == size,
                    rest >= 0,
            ;
        }
    }
    let rounded: u128 = if 2 * rest > unit as u128 || (2 * rest == unit as u128 && whole % 2
        == 1) {
        whole + 1
    } else {
        whole
    };
    rounded as u64
}

/// A number of tenths written with a point and one decimal.
pub fn render_one_decimal(tenths: u64) -> (text: String)
    ensures
        text@ == one_decimal(tenths as nat),
{
    proof {
        reveal_strlit(".");
    }
    let text = render_decimal(tenths / 10).concat(".").concat(digit_text((tenths % 10) as u8));
    assert(text@ =~= one_decimal(tenths as nat));
    text
}

/// A number of hundredths written with a point and two decimals.
pub fn render_two_decimals(hundredths: u64) -> (text: String)
    ensures
        text@ == two_decimals(hundredths as nat),
{
    proof {
        reveal_strlit(".");
    }
    let text = render_decimal(hundredths / 100).concat(".").concat(
        digit_text((hundredths % 100 / 10) as u8),
    ).concat(digit_text((hundredths % 10) as u8));
    assert(text@ =~= two_decimals(hundredths as nat));
    text
}

} // verus!
