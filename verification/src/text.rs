//! Text as sequences of characters: searching, trimming, splitting and numerals.

use vstd::prelude::*;

verus! {

/// Appends one character to a string, as `String::push` does.
pub assume_specification[ String::push ](s: &mut String, c: char)
    ensures
        final(s)@ == old(s)@.push(c),
;

/// The characters of a string slice, in order.
pub fn chars_of(s: &str) -> (chars: Vec<char>)
    ensures
        chars@ == s@,
{
    let mut chars: Vec<char> = Vec::new();
    for c in it: s.chars()
        invariant
            it.seq() == s@,
            chars@ == s@.take(it.index() as int),
    {
        chars.push(c);
    }
    assert(s@.take(s@.len() as int) == s@);
    chars
}

/// The string made of `chars`.
pub fn string_of(chars: &[char]) -> (s: String)
    ensures
        s@ == chars@,
{
    let mut s = String::new();
    for i in 0..chars.len()
        invariant
            s@ == chars@.take(i as int),
    {
        s.push(chars[i]);
        assert(chars@.take(i + 1) == chars@.take(i as int).push(chars@[i as int]));
    }
    assert(chars@.take(chars@.len() as int) == chars@);
    s
}

/// Appends a string slice to a string.
pub fn push_text(s: &mut String, more: &str)
    ensures
        final(s)@ == old(s)@ + more@,
{
    s.append(more);
}

/// `a` followed by `b`.
pub fn concat2(a: &str, b: &str) -> (r: String)
    ensures
        r@ == a@ + b@,
{
    let mut r = a.to_owned();
    r.append(b);
    r
}

/// `a` followed by `b` and `c`.
pub fn concat3(a: &str, b: &str, c: &str) -> (r: String)
    ensures
        r@ == a@ + b@ + c@,
{
    let mut r = a.to_owned();
    r.append(b);
    r.append(c);
    r
}

// ---------------------------------------------------------------------------------------------
// Prefixes and substrings
// ---------------------------------------------------------------------------------------------

/// Whether `needle` occurs in `s` as a block of consecutive characters.
pub open spec fn has_text(s: Seq<char>, needle: Seq<char>) -> bool {
    exists|i: int|
        0 <= i && i + needle.len() <= s.len() && #[trigger] s.subrange(i, i + needle.len())
            == needle
}

/// Whether `needle` stands in `s` at position `at`.
fn matches_at(s: &[char], needle: &[char], at: usize) -> (r: bool)
    requires
        at + needle@.len() <= s@.len(),
    ensures
        r == (s@.subrange(at as int, at + needle@.len()) == needle@),
{
    let len = s.len();
    for j in 0..needle.len()
        invariant
            at + needle@.len() <= len,
            len == s@.len(),
            forall|k: int| 0 <= k < j ==> s@[at + k] == needle@[k],
    {
        if s[at + j] != needle[j] {
            assert(s@.subrange(at as int, at + needle@.len())[j as int] != needle@[j as int]);
            return false;
        }
    }
    assert(s@.subrange(at as int, at + needle@.len()) == needle@);
    true
}

/// Whether `s` begins with `prefix`.
pub fn starts_with(s: &[char], prefix: &[char]) -> (r: bool)
    ensures
        r == prefix@.is_prefix_of(s@),
{
    if prefix.len() > s.len() {
        return false;
    }
    matches_at(s, prefix, 0)
}

/// Whether `needle` occurs in `s`.
pub fn contains(s: &[char], needle: &[char]) -> (r: bool)
    ensures
        r == has_text(s@, needle@),
{
    if needle.len() > s.len() {
        return false;
    }
    let last: usize = s.len() - needle.len();
    let mut i: usize = 0;
    while i < last
        invariant
            i <= last,
            last + needle@.len() == s@.len(),
            forall|k: int|
                0 <= k < i ==> #[trigger] s@.subrange(k, k + needle@.len()) != needle@,
        decreases last - i,
    {
        if matches_at(s, needle, i) {
            return true;
        }
        i = i + 1;
    }
    matches_at(s, needle, last)
}

/// Whether the string `s` contains the string `needle`.
pub fn str_contains(s: &str, needle: &str) -> (r: bool)
    ensures
        r == has_text(s@, needle@),
{
    let chars = chars_of(s);
    let wanted = chars_of(needle);
    contains(chars.as_slice(), wanted.as_slice())
}

/// Whether the string `s` begins with `prefix`.
pub fn str_starts_with(s: &str, prefix: &str) -> (r: bool)
    ensures
        r == prefix@.is_prefix_of(s@),
{
    let chars = chars_of(s);
    let wanted = chars_of(prefix);
    starts_with(chars.as_slice(), wanted.as_slice())
}

/// What follows `prefix` in `s`, when `s` begins with it.
pub open spec fn after_prefix(s: Seq<char>, prefix: Seq<char>) -> Option<Seq<char>> {
    if prefix.is_prefix_of(s) {
        Some(s.skip(prefix.len() as int))
    } else {
        None
    }
}

/// What follows `prefix` in `s`, when `s` begins with it.
pub fn strip_prefix<'a>(s: &'a [char], prefix: &[char]) -> (r: Option<&'a [char]>)
    ensures
        match r {
            Some(rest) => after_prefix(s@, prefix@) == Some(rest@),
            None => after_prefix(s@, prefix@) is None,
        },
{
    if starts_with(s, prefix) {
        let rest = vstd::slice::slice_subrange(s, prefix.len(), s.len());
        assert(rest@ == s@.skip(prefix@.len() as int));
        Some(rest)
    } else {
        None
    }
}

/// At most the first `n` characters of `s`.
pub open spec fn at_most(s: Seq<char>, n: nat) -> Seq<char> {
    if s.len() <= n {
        s
    } else {
        s.take(n as int)
    }
}

/// At most the first `n` characters of `s`.
pub fn first_chars(s: &[char], n: usize) -> (r: &[char])
    ensures
        r@ == at_most(s@, n as nat),
{
    if s.len() <= n {
        s
    } else {
        vstd::slice::slice_subrange(s, 0, n)
    }
}

// ---------------------------------------------------------------------------------------------
// White space
// ---------------------------------------------------------------------------------------------

/// The characters with the Unicode property White_Space.
pub open spec fn white_space(c: char) -> bool {
    let u = c as u32;
    ||| 0x09 <= u <= 0x0d
    ||| u == 0x20
    ||| u == 0x85
    ||| u == 0xa0
    ||| u == 0x1680
    ||| 0x2000 <= u <= 0x200a
    ||| u == 0x2028
    ||| u == 0x2029
    ||| u == 0x202f
    ||| u == 0x205f
    ||| u == 0x3000
}

/// Whether a character has the Unicode property White_Space.
pub fn is_white_space(c: char) -> (r: bool)
    ensures
        r == white_space(c),
{
    let u = c as u32;
    (0x09 <= u && u <= 0x0d) || u == 0x20 || u == 0x85 || u == 0xa0 || u == 0x1680 || (0x2000 <= u
        && u <= 0x200a) || u == 0x2028 || u == 0x2029 || u == 0x202f || u == 0x205f || u == 0x3000
}

/// `s` without the white space at its start.
pub open spec fn trim_start(s: Seq<char>) -> Seq<char>
    decreases s.len(),
{
    if s.len() > 0 && white_space(s.first()) {
        trim_start(s.drop_first())
    } else {
        s
    }
}

/// `s` without the white space at its end.
pub open spec fn trim_end(s: Seq<char>) -> Seq<char>
    decreases s.len(),
{
    if s.len() > 0 && white_space(s.last()) {
        trim_end(s.drop_last())
    } else {
        s
    }
}

/// `s` without the white space at either end.
pub open spec fn trimmed(s: Seq<char>) -> Seq<char> {
    trim_end(trim_start(s))
}

/// `s` without the white space at either end.
pub fn trim(s: &[char]) -> (r: &[char])
    ensures
        r@ == trimmed(s@),
{
    let mut lo: usize = 0;
    assert(s@.skip(0) == s@);
    while lo < s.len() && is_white_space(s[lo])
        invariant
            lo <= s@.len(),
            trim_start(s@) == trim_start(s@.skip(lo as int)),
        decreases s@.len() - lo,
    {
        assert(s@.skip(lo as int).drop_first() == s@.skip(lo + 1));
        lo = lo + 1;
    }
    let ghost front = s@.skip(lo as int);
    assert(trim_start(s@) == front);
    let mut hi: usize = s.len();
    assert(front.take(front.len() as int) == front);
    while lo < hi && is_white_space(s[hi - 1])
        invariant
            lo <= hi <= s@.len(),
            front == s@.skip(lo as int),
            trim_end(front) == trim_end(front.take(hi - lo)),
        decreases hi,
    {
        assert(front.take(hi - lo).drop_last() == front.take(hi - lo - 1));
        assert(front.take(hi - lo).last() == s@[hi - 1]);
        hi = hi - 1;
    }
    assert(hi > lo ==> front.take(hi - lo).last() == s@[hi - 1]);
    assert(trim_end(front) == front.take(hi - lo));
    assert(s@.subrange(lo as int, hi as int) == front.take(hi - lo));
    vstd::slice::slice_subrange(s, lo, hi)
}

/// Trimming drops a line feed that ends the text.
pub proof fn lemma_trim_line_end(s: Seq<char>)
    requires
        s.len() > 0 ==> !white_space(s.first()) && !white_space(s.last()),
    ensures
        trimmed(s.push('\n')) == s,
{
    let t = s.push('\n');
    if s.len() == 0 {
        assert(t.drop_first() == s);
        assert(trim_start(t) == trim_start(s));
    } else {
        assert(t.first() == s.first());
        assert(t.drop_last() == s);
        assert(trim_end(t) == trim_end(s));
    }
}

// ---------------------------------------------------------------------------------------------
// Letter case
// ---------------------------------------------------------------------------------------------

/// The lower-case letter for an upper-case letter of ASCII; any other character as it is.
pub open spec fn ascii_lower(c: char) -> char {
    if 'A' <= c <= 'Z' {
        (c as u32 + 32) as char
    } else {
        c
    }
}

/// `s` with the upper-case letters of ASCII made lower case.
pub open spec fn lowered(s: Seq<char>) -> Seq<char> {
    s.map_values(|c: char| ascii_lower(c))
}

/// `s` with the upper-case letters of ASCII made lower case.
pub fn to_ascii_lowercase(s: &[char]) -> (r: Vec<char>)
    ensures
        r@ == lowered(s@),
{
    let mut r: Vec<char> = Vec::new();
    for i in 0..s.len()
        invariant
            r@ == lowered(s@.take(i as int)),
    {
        let c = s[i];
        if 'A' <= c && c <= 'Z' {
            r.push((c as u8 + 32) as char);
        } else {
            r.push(c);
        }
        assert(s@.take(i + 1) == s@.take(i as int).push(c));
        assert(lowered(s@.take(i + 1)) == lowered(s@.take(i as int)).push(ascii_lower(c)));
    }
    assert(s@.take(s@.len() as int) == s@);
    r
}

// ---------------------------------------------------------------------------------------------
// Numerals
// ---------------------------------------------------------------------------------------------

/// The character for a decimal digit.
pub open spec fn digit_char(d: nat) -> char
    recommends
        d < 10,
{
    (48 + d) as char
}

/// The decimal numeral of a number, without leading zeros.
pub open spec fn decimal(n: nat) -> Seq<char>
    decreases n,
{
    if n < 10 {
        seq![digit_char(n)]
    } else {
        decimal(n / 10).push(digit_char(n % 10))
    }
}

/// The decimal numeral of a number, without leading zeros.
pub fn decimal_chars(n: u128) -> (r: Vec<char>)
    ensures
        r@ == decimal(n as nat),
    decreases n,
{
    if n < 10 {
        let mut r: Vec<char> = Vec::new();
        r.push((48 + n as u8) as char);
        r
    } else {
        let mut r = decimal_chars(n / 10);
        r.push((48 + (n % 10) as u8) as char);
        r
    }
}

/// The decimal numeral of a number, as a string.
pub fn decimal_string(n: u128) -> (r: String)
    ensures
        r@ == decimal(n as nat),
{
    let chars = decimal_chars(n);
    string_of(chars.as_slice())
}

/// Every character of a numeral is a decimal digit, and there is at least one.
pub proof fn lemma_decimal_digits(n: nat)
    ensures
        decimal(n).len() > 0,
        forall|i: int| 0 <= i < decimal(n).len() ==> '0' <= #[trigger] decimal(n)[i] <= '9',
    decreases n,
{
    if n >= 10 {
        lemma_decimal_digits(n / 10);
    }
}

/// The number that a numeral stands for is the number it was written for.
pub proof fn lemma_decimal_value(n: nat)
    ensures
        digits_value(decimal(n)) == n,
    decreases n,
{
    reveal_with_fuel(digits_value, 2);
    if n < 10 {
        assert(decimal(n).drop_last() == Seq::<char>::empty());
    } else {
        lemma_decimal_value(n / 10);
        assert(decimal(n).drop_last() == decimal(n / 10));
        assert(n == 10 * (n / 10) + n % 10);
    }
}

/// Distinct numbers have distinct numerals.
pub proof fn lemma_decimal_injective(m: nat, n: nat)
    requires
        decimal(m) == decimal(n),
    ensures
        m == n,
{
    lemma_decimal_value(m);
    lemma_decimal_value(n);
}

/// Whether every character is a decimal digit.
pub open spec fn all_digits(s: Seq<char>) -> bool {
    forall|i: int| 0 <= i < s.len() ==> '0' <= #[trigger] s[i] <= '9'
}

/// The number that a sequence of decimal digits stands for.
pub open spec fn digits_value(s: Seq<char>) -> nat
    decreases s.len(),
{
    if s.len() == 0 {
        0
    } else {
        10 * digits_value(s.drop_last()) + (s.last() as u32 - 48) as nat
    }
}

/// The signed number that `s` spells: an optional sign, then one or more decimal digits.
pub open spec fn signed_value(s: Seq<char>) -> Option<int> {
    let signed = s.len() > 0 && (s.first() == '-' || s.first() == '+');
    let digits = if signed {
        s.drop_first()
    } else {
        s
    };
    if digits.len() == 0 || !all_digits(digits) {
        None
    } else if s.first() == '-' {
        Some(-(digits_value(digits) as int))
    } else {
        Some(digits_value(digits) as int)
    }
}

/// The 32-bit number that `s` spells, when it spells one that fits.
pub open spec fn i32_value(s: Seq<char>) -> Option<int> {
    match signed_value(s) {
        Some(v) => if i32::MIN <= v <= i32::MAX {
            Some(v)
        } else {
            None
        },
        None => None,
    }
}

/// The largest magnitude that a 32-bit number can have.
const MAGNITUDE: u64 = 0x8000_0000;

/// The number that a sequence of decimal digits stands for, or one more than `MAGNITUDE` when it
/// is larger than that; nothing when the sequence holds another character.
fn parse_digits(s: &[char]) -> (r: Option<u64>)
    ensures
        match r {
            Some(v) => all_digits(s@) && (if digits_value(s@) <= MAGNITUDE {
                v == digits_value(s@)
            } else {
                v == MAGNITUDE + 1
            }),
            None => !all_digits(s@),
        },
{
    let mut value: u64 = 0;
    for i in 0..s.len()
        invariant
            all_digits(s@.take(i as int)),
            value <= MAGNITUDE + 1,
            value <= MAGNITUDE ==> value == digits_value(s@.take(i as int)),
            value > MAGNITUDE ==> digits_value(s@.take(i as int)) > MAGNITUDE,
    {
        let c = s[i];
        if c < '0' || '9' < c {
            return None;
        }
        assert(s@.take(i + 1).drop_last() == s@.take(i as int));
        assert(s@.take(i + 1) == s@.take(i as int).push(c));
        if value <= MAGNITUDE {
            value = value * 10 + (c as u32 - 48) as u64;
        }
        if value > MAGNITUDE {
            value = MAGNITUDE + 1;
        }
    }
    assert(s@.take(s@.len() as int) == s@);
    Some(value)
}

/// The 32-bit number that `s` spells, when it spells one that fits.
pub fn parse_i32(s: &[char]) -> (r: Option<i32>)
    ensures
        match r {
            Some(v) => i32_value(s@) == Some(v as int),
            None => i32_value(s@) is None,
        },
{
    let len = s.len();
    let signed = len > 0 && (s[0] == '-' || s[0] == '+');
    let digits = if signed {
        vstd::slice::slice_subrange(s, 1, len)
    } else {
        s
    };
    assert(signed ==> digits@ == s@.drop_first());
    if digits.len() == 0 {
        return None;
    }
    match parse_digits(digits) {
        None => None,
        Some(value) => if s[0] == '-' {
            if value <= MAGNITUDE {
                Some((-(value as i64)) as i32)
            } else {
                None
            }
        } else if value < MAGNITUDE {
            Some(value as i32)
        } else {
            None
        },
    }
}

// ---------------------------------------------------------------------------------------------
// Pieces and lines
// ---------------------------------------------------------------------------------------------

/// The pieces of `s` between the occurrences of `sep`: always one more than there are of these.
pub open spec fn pieces<A>(s: Seq<A>, sep: A) -> Seq<Seq<A>>
    decreases s.len(),
{
    if s.len() == 0 {
        seq![Seq::<A>::empty()]
    } else {
        let before = pieces(s.drop_last(), sep);
        if s.last() == sep {
            before.push(Seq::<A>::empty())
        } else {
            before.drop_last().push(before.last().push(s.last()))
        }
    }
}

/// There is always at least one piece.
pub proof fn lemma_pieces_nonempty<A>(s: Seq<A>, sep: A)
    ensures
        pieces(s, sep).len() > 0,
    decreases s.len(),
{
    if s.len() > 0 {
        lemma_pieces_nonempty(s.drop_last(), sep);
    }
}

/// A line without the carriage return that may end it.
pub open spec fn without_cr(line: Seq<char>) -> Seq<char> {
    if line.len() > 0 && line.last() == '\r' {
        line.drop_last()
    } else {
        line
    }
}

/// The lines of a text: each ends at a line feed, which a carriage return may precede; what
/// follows the last line feed is a line when it is not empty.
pub open spec fn lines(s: Seq<char>) -> Seq<Seq<char>> {
    let all = pieces(s, '\n');
    let ended = all.drop_last().map_values(|line: Seq<char>| without_cr(line));
    if all.last().len() == 0 {
        ended
    } else {
        ended.push(all.last())
    }
}

/// What follows `prefix` on the first of `all` that begins with it.
pub open spec fn first_after_prefix(all: Seq<Seq<char>>, prefix: Seq<char>) -> Option<Seq<char>>
    decreases all.len(),
{
    if all.len() == 0 {
        None
    } else if prefix.is_prefix_of(all.first()) {
        after_prefix(all.first(), prefix)
    } else {
        first_after_prefix(all.drop_first(), prefix)
    }
}

/// The views of the lines.
pub open spec fn char_views(v: Seq<Vec<char>>) -> Seq<Seq<char>> {
    v.map_values(|line: Vec<char>| line@)
}

/// The lines of a text.
pub fn split_lines(s: &[char]) -> (r: Vec<Vec<char>>)
    ensures
        char_views(r@) == lines(s@),
{
    let mut ended: Vec<Vec<char>> = Vec::new();
    let mut current: Vec<char> = Vec::new();
    let ghost strip = |line: Seq<char>| without_cr(line);
    for i in 0..s.len()
        invariant
            strip == (|line: Seq<char>| without_cr(line)),
            pieces(s@.take(i as int), '\n').len() > 0,
            pieces(s@.take(i as int), '\n').last() == current@,
            char_views(ended@) == pieces(s@.take(i as int), '\n').drop_last().map_values(strip),
    {
        let c = s[i];
        let ghost seen = pieces(s@.take(i as int), '\n');
        assert(s@.take(i + 1).drop_last() == s@.take(i as int));
        if c == '\n' {
            let n = current.len();
            if n > 0 && current[n - 1] == '\r' {
                current.truncate(n - 1);
                assert(current@ == seen.last().drop_last());
            }
            let ghost done = current@;
            let ghost before = ended@;
            ended.push(current);
            current = Vec::new();
            assert(char_views(ended@) == char_views(before).push(done));
            assert(seen.push(Seq::<char>::empty()).drop_last() == seen);
            assert(seen.map_values(strip) == seen.drop_last().map_values(strip).push(
                without_cr(seen.last()),
            ));
        } else {
            current.push(c);
            assert(pieces(s@.take(i + 1), '\n').drop_last() == seen.drop_last());
        }
    }
    assert(s@.take(s@.len() as int) == s@);
    let ghost before = ended@;
    if current.len() > 0 {
        let ghost last = current@;
        ended.push(current);
        assert(char_views(ended@) == char_views(before).push(last));
    }
    ended
}

/// What follows `prefix` on the first line of `s` that begins with it.
pub fn find_after_prefix(s: &str, prefix: &str) -> (r: Option<String>)
    ensures
        match r {
            Some(rest) => first_after_prefix(lines(s@), prefix@) == Some(rest@),
            None => first_after_prefix(lines(s@), prefix@) is None,
        },
{
    let chars = chars_of(s);
    let wanted = chars_of(prefix);
    let all = split_lines(chars.as_slice());
    let ghost views = char_views(all@);
    assert(views.skip(0) == views);
    for i in 0..all.len()
        invariant
            wanted@ == prefix@,
            views == char_views(all@),
            views == lines(s@),
            first_after_prefix(views, prefix@) == first_after_prefix(views.skip(i as int), prefix@),
    {
        assert(views.skip(i as int).first() == all@[i as int]@);
        assert(views.skip(i as int).drop_first() == views.skip(i + 1));
        if let Some(rest) = strip_prefix(all[i].as_slice(), wanted.as_slice()) {
            return Some(string_of(rest));
        }
    }
    None
}

// ---------------------------------------------------------------------------------------------
// Joining
// ---------------------------------------------------------------------------------------------

/// The parts in order, with `sep` between each two.
pub open spec fn joined_with(parts: Seq<Seq<char>>, sep: Seq<char>) -> Seq<char>
    decreases parts.len(),
{
    if parts.len() == 0 {
        Seq::<char>::empty()
    } else if parts.len() == 1 {
        parts[0]
    } else {
        joined_with(parts.drop_last(), sep) + sep + parts.last()
    }
}

/// The views of some strings.
pub open spec fn string_views(v: Seq<String>) -> Seq<Seq<char>> {
    v.map_values(|s: String| s@)
}

/// The views of some string slices.
pub open spec fn slice_views(v: Seq<&'static str>) -> Seq<Seq<char>> {
    v.map_values(|s: &'static str| s@)
}

/// The view of an optional string.
pub open spec fn text_view(t: Option<String>) -> Option<Seq<char>> {
    match t {
        Some(t) => Some(t@),
        None => None,
    }
}

/// The strings in order, with `sep` between each two.
pub fn join_strings(parts: &Vec<String>, sep: &str) -> (r: String)
    ensures
        r@ == joined_with(string_views(parts@), sep@),
{
    let mut r = String::new();
    let ghost all = string_views(parts@);
    for i in 0..parts.len()
        invariant
            all == string_views(parts@),
            r@ == joined_with(all.take(i as int), sep@),
    {
        assert(all.take(i + 1).drop_last() == all.take(i as int));
        assert(all.take(i + 1).last() == parts@[i as int]@);
        if i > 0 {
            r.append(sep);
        }
        r.append(parts[i].as_str());
    }
    assert(all.take(all.len() as int) == all);
    r
}

// ---------------------------------------------------------------------------------------------
// What holds of texts
// ---------------------------------------------------------------------------------------------

/// A text occurs in another exactly when something may stand before it and something after it.
pub proof fn occurring_is_standing_between(s: Seq<char>, needle: Seq<char>)
    ensures
        has_text(s, needle) <==> exists|before: Seq<char>, after: Seq<char>|
            s == #[trigger] (before + needle + after),
{
    if has_text(s, needle) {
        let i = choose|i: int|
            0 <= i && i + needle.len() <= s.len() && #[trigger] s.subrange(i, i + needle.len())
                == needle;
        assert(s =~= s.take(i) + needle + s.skip(i + needle.len()));
    }
    if exists|before: Seq<char>, after: Seq<char>| s == #[trigger] (before + needle + after) {
        let (before, after) = choose|before: Seq<char>, after: Seq<char>|
            s == #[trigger] (before + needle + after);
        let i = before.len() as int;
        assert(s.subrange(i, i + needle.len()) =~= needle);
    }
}

/// What follows a prefix is the rest of the text, and only texts that begin with the prefix have
/// one.
pub proof fn prefix_and_rest_make_the_text(s: Seq<char>, prefix: Seq<char>, rest: Seq<char>)
    ensures
        after_prefix(s, prefix) == Some(rest) <==> s == prefix + rest,
        after_prefix(s, prefix) is None <==> s.len() < prefix.len() || exists|i: int|
            0 <= i < prefix.len() && #[trigger] s[i] != prefix[i],
{
    if s == prefix + rest {
        assert((prefix + rest).subrange(0, prefix.len() as int) =~= prefix);
        assert(s.skip(prefix.len() as int) =~= rest);
    }
    if prefix.is_prefix_of(s) {
        assert(s =~= prefix + s.skip(prefix.len() as int));
    } else if s.len() >= prefix.len() {
        if forall|i: int| 0 <= i < prefix.len() ==> #[trigger] s[i] == prefix[i] {
            assert(s.subrange(0, prefix.len() as int) =~= prefix);
        }
    }
}

/// The first characters of a text are as many as were asked for, or all of them.
pub proof fn at_most_cuts_the_end_off(s: Seq<char>, n: nat)
    ensures
        at_most(s, n).len() == (if s.len() < n {
            s.len()
        } else {
            n
        }),
        forall|i: int| 0 <= i < at_most(s, n).len() ==> at_most(s, n)[i] == #[trigger] s[i],
{
}

/// The white space of ASCII is the space and the five control characters from the tab to the
/// carriage return. Beyond ASCII there are the next line, the no-break space and the spaces and
/// separators from U+1680 on.
pub proof fn white_space_of_unicode(c: char)
    ensures
        (c as u32) < 128 ==> (white_space(c) <==> c == ' ' || c == '\t' || c == '\n' || c
            == '\u{b}' || c == '\u{c}' || c == '\r'),
        128 <= (c as u32) < 0x2000 ==> (white_space(c) <==> c == '\u{85}' || c == '\u{a0}' || c
            == '\u{1680}'),
        0x2000 <= (c as u32) ==> (white_space(c) <==> c as u32 <= 0x200a || c == '\u{2028}' || c
            == '\u{2029}' || c == '\u{202f}' || c == '\u{205f}' || c == '\u{3000}'),
{
}

/// Whether a text consists of white space.
pub open spec fn blank(s: Seq<char>) -> bool {
    forall|i: int| 0 <= i < s.len() ==> white_space(#[trigger] s[i])
}

/// Whether a text neither begins nor ends with white space.
pub open spec fn tight(s: Seq<char>) -> bool {
    s.len() > 0 ==> !white_space(s[0]) && !white_space(s[s.len() - 1])
}

proof fn lemma_trim_start(s: Seq<char>) -> (k: int)
    ensures
        0 <= k <= s.len(),
        blank(s.take(k)),
        trim_start(s) == s.skip(k),
        k < s.len() ==> !white_space(s[k]),
    decreases s.len(),
{
    if s.len() > 0 && white_space(s.first()) {
        let k = lemma_trim_start(s.drop_first()) + 1;
        assert(s.drop_first().skip(k - 1) =~= s.skip(k));
        assert forall|i: int| 0 <= i < k implies white_space(#[trigger] s.take(k)[i]) by {
            if i > 0 {
                assert(s.drop_first().take(k - 1)[i - 1] == s[i]);
            }
        }
        k
    } else {
        assert(s.skip(0) =~= s);
        0
    }
}

proof fn lemma_trim_end(s: Seq<char>) -> (k: int)
    ensures
        0 <= k <= s.len(),
        blank(s.skip(k)),
        trim_end(s) == s.take(k),
        k > 0 ==> !white_space(s[k - 1]),
    decreases s.len(),
{
    if s.len() > 0 && white_space(s.last()) {
        let k = lemma_trim_end(s.drop_last());
        assert(s.drop_last().take(k) =~= s.take(k));
        assert forall|i: int| 0 <= i < s.len() - k implies white_space(#[trigger] s.skip(k)[i]) by {
            if i < s.len() - k - 1 {
                assert(s.drop_last().skip(k)[i] == s[k + i]);
            }
        }
        k
    } else {
        assert(s.take(s.len() as int) =~= s);
        s.len() as int
    }
}

/// Trimming takes white space off both ends, all of it and nothing else.
pub proof fn trimming_takes_off_white_space(s: Seq<char>)
    ensures
        tight(trimmed(s)),
        exists|before: Seq<char>, after: Seq<char>|
            blank(before) && blank(after) && s == #[trigger] (before + trimmed(s) + after),
{
    let i = lemma_trim_start(s);
    let front = trim_start(s);
    let k = lemma_trim_end(front);
    assert(trimmed(s) =~= s.subrange(i, i + k));
    assert(s =~= s.take(i) + trimmed(s) + front.skip(k));
}

/// Making a text lower case changes the letters from A to Z and no other character.
pub proof fn lowering_changes_capital_letters(s: Seq<char>)
    ensures
        lowered(s).len() == s.len(),
        forall|i: int|
            0 <= i < s.len() ==> lowered(s)[i] as u32 == (if 65 <= #[trigger] s[i] as u32 <= 90 {
                s[i] as u32 + 32
            } else {
                s[i] as u32 as int
            }),
{
}

/// The numeral of a number has the digits of the number, the last one for its remainder by ten,
/// and no zero in front.
pub proof fn numerals_are_decimal(n: nat, d: nat)
    requires
        d < 10,
    ensures
        decimal(d) == seq!["0123456789"@[d as int]],
        n > 0 ==> decimal(10 * n + d) == decimal(n).push("0123456789"@[d as int]),
        n > 0 ==> decimal(n)[0] != '0',
    decreases n,
{
    reveal_strlit("0123456789");
    assert((10 * n + d) / 10 == n && (10 * n + d) % 10 == d);
    if n >= 10 {
        numerals_are_decimal(n / 10, d);
        lemma_decimal_digits(n / 10);
    }
}

/// A digit at the end of a numeral adds itself to ten times the number.
pub proof fn digits_count_by_ten(s: Seq<char>, d: nat)
    requires
        d < 10,
    ensures
        digits_value(Seq::<char>::empty()) == 0,
        digits_value(s.push("0123456789"@[d as int])) == 10 * digits_value(s) + d,
{
    reveal_strlit("0123456789");
    assert(s.push("0123456789"@[d as int]).drop_last() =~= s);
}

/// A number of 32 bits is read from its numeral, with or without a sign, and a number that does
/// not fit is not.
pub proof fn numerals_are_read_back(n: nat)
    ensures
        i32_value(decimal(n)) == (if n <= 0x7fff_ffff {
            Some(n as int)
        } else {
            None
        }),
        i32_value(seq!['+'] + decimal(n)) == (if n <= 0x7fff_ffff {
            Some(n as int)
        } else {
            None
        }),
        i32_value(seq!['-'] + decimal(n)) == (if n <= 0x8000_0000 {
            Some(-(n as int))
        } else {
            None
        }),
{
    lemma_decimal_digits(n);
    lemma_decimal_value(n);
    assert((seq!['+'] + decimal(n)).drop_first() =~= decimal(n));
    assert((seq!['-'] + decimal(n)).drop_first() =~= decimal(n));
    assert('0' <= decimal(n)[0] <= '9');
}

/// No number is read from a text without digits or with anything behind its first character that
/// is no digit.
pub proof fn other_texts_are_no_numbers(s: Seq<char>, k: int)
    ensures
        i32_value(Seq::<char>::empty()) is None,
        i32_value(seq!['-']) is None,
        i32_value(seq!['+']) is None,
        0 < k < s.len() && !('0' <= s[k] <= '9') ==> i32_value(s) is None,
        0 < s.len() && !('0' <= s[0] <= '9') && s[0] != '-' && s[0] != '+' ==> i32_value(s) is None,
{
    if 0 < k < s.len() && !('0' <= s[k] <= '9') {
        assert(s.drop_first()[k - 1] == s[k]);
    }
}

proof fn lemma_pieces_split<A>(a: Seq<A>, sep: A, b: Seq<A>)
    ensures
        pieces(a.push(sep) + b, sep) == pieces(a, sep) + pieces(b, sep),
    decreases b.len(),
{
    let whole = a.push(sep) + b;
    lemma_pieces_nonempty(b, sep);
    if b.len() == 0 {
        assert(whole =~= a.push(sep));
        assert(a.push(sep).drop_last() =~= a);
        assert(pieces(whole, sep) =~= pieces(a, sep) + pieces(b, sep));
    } else {
        assert(whole.drop_last() =~= a.push(sep) + b.drop_last());
        lemma_pieces_split(a, sep, b.drop_last());
        lemma_pieces_nonempty(b.drop_last(), sep);
        let before = pieces(b.drop_last(), sep);
        assert((pieces(a, sep) + before).last() == before.last());
        assert((pieces(a, sep) + before).drop_last() =~= pieces(a, sep) + before.drop_last());
        assert(pieces(whole, sep) =~= pieces(a, sep) + pieces(b, sep));
    }
}

proof fn lemma_one_piece<A>(a: Seq<A>, sep: A)
    requires
        !a.contains(sep),
    ensures
        pieces(a, sep) == seq![a],
    decreases a.len(),
{
    if a.len() > 0 {
        let front = a.drop_last();
        assert(a.contains(a.last()));
        assert forall|x: A| front.contains(x) implies a.contains(x) by {
            let k = choose|k: int| 0 <= k < front.len() && front[k] == x;
            assert(a[k] == x);
        }
        lemma_one_piece(front, sep);
        assert(front.push(a.last()) =~= a);
        assert(pieces(a, sep) =~= seq![a]);
    } else {
        assert(a =~= Seq::<A>::empty());
    }
}

/// A text is its first line and the lines of what follows the line feed. A carriage return before
/// the line feed belongs to the end of the line; an end without a line feed is a line as it is, and
/// an empty end is none.
pub proof fn lines_end_at_line_feeds(line: Seq<char>, rest: Seq<char>)
    requires
        !line.contains('\n'),
    ensures
        lines(Seq::<char>::empty()).len() == 0,
        line.len() > 0 ==> lines(line) == seq![line],
        lines(line.push('\n') + rest).len() == 1 + lines(rest).len(),
        lines(line.push('\n') + rest).skip(1) == lines(rest),
        lines(line.push('\n') + rest)[0] == (if line.len() > 0 && line[line.len() - 1] == '\r' {
            line.take(line.len() - 1)
        } else {
            line
        }),
{
    let strip = |l: Seq<char>| without_cr(l);
    lemma_one_piece(line, '\n');
    lemma_one_piece(Seq::<char>::empty(), '\n');
    assert(seq![line].drop_last().map_values(strip) =~= Seq::<Seq<char>>::empty());
    assert(lines(line) =~= if line.len() == 0 {
        Seq::<Seq<char>>::empty()
    } else {
        seq![line]
    });
    assert(lines(Seq::<char>::empty()) =~= Seq::<Seq<char>>::empty());
    lemma_pieces_split(line, '\n', rest);
    lemma_pieces_nonempty(rest, '\n');
    let tail = pieces(rest, '\n');
    let all = seq![line] + tail;
    assert(pieces(line.push('\n') + rest, '\n') == all);
    assert(all.last() == tail.last());
    assert(all.drop_last() =~= seq![line] + tail.drop_last());
    assert(all.drop_last().map_values(strip) =~= seq![without_cr(line)]
        + tail.drop_last().map_values(strip));
    assert(lines(line.push('\n') + rest) =~= seq![without_cr(line)] + lines(rest));
    assert(lines(line.push('\n') + rest).skip(1) =~= lines(rest));
    assert(without_cr(line) =~= if line.len() > 0 && line[line.len() - 1] == '\r' {
        line.take(line.len() - 1)
    } else {
        line
    });
}

/// Joining puts the separator between the parts: none for one part, and one before each further
/// part, wherever that is added.
pub proof fn separators_stand_between_parts(
    first: Seq<char>,
    parts: Seq<Seq<char>>,
    sep: Seq<char>,
)
    ensures
        joined_with(Seq::empty(), sep).len() == 0,
        joined_with(seq![first], sep) == first,
        parts.len() > 0 ==> joined_with(seq![first] + parts, sep) == first + sep + joined_with(
            parts,
            sep,
        ),
    decreases parts.len(),
{
    let all = seq![first] + parts;
    if parts.len() == 1 {
        assert(all.drop_last() =~= seq![first]);
        assert(all.last() == parts[0]);
    } else if parts.len() > 1 {
        separators_stand_between_parts(first, parts.drop_last(), sep);
        assert(all.drop_last() =~= seq![first] + parts.drop_last());
        assert(all.last() == parts.last());
        let front = joined_with(parts.drop_last(), sep);
        assert((first + sep + front) + sep + parts.last() =~= first + sep + (front + sep
            + parts.last()));
    }
}

/// Every row of digits is read as a number, with zeros in front or not, where it fits; a sign in
/// front of it decides on which side of zero.
pub proof fn rows_of_digits_are_read(s: Seq<char>)
    requires
        s.len() > 0,
        forall|i: int| 0 <= i < s.len() ==> '0' <= #[trigger] s[i] <= '9',
    ensures
        i32_value(s) == (if digits_value(s) <= 0x7fff_ffff {
            Some(digits_value(s) as int)
        } else {
            None
        }),
        i32_value(seq!['+'] + s) == i32_value(s),
        i32_value(seq!['-'] + s) == (if digits_value(s) <= 0x8000_0000 {
            Some(-(digits_value(s) as int))
        } else {
            None
        }),
        i32_value(seq!['0'] + s) == i32_value(s),
{
    assert((seq!['+'] + s).drop_first() =~= s);
    assert((seq!['-'] + s).drop_first() =~= s);
    assert('0' <= s[0] <= '9');
    let longer = seq!['0'] + s;
    assert forall|i: int| 0 <= i < longer.len() implies '0' <= #[trigger] longer[i] <= '9' by {
        if i > 0 {
            assert(longer[i] == s[i - 1]);
        }
    }
    lemma_zero_in_front(s);
}

proof fn lemma_zero_in_front(s: Seq<char>)
    ensures
        digits_value(seq!['0'] + s) == digits_value(s),
    decreases s.len(),
{
    let longer = seq!['0'] + s;
    if s.len() == 0 {
        assert(longer.drop_last() =~= Seq::<char>::empty());
        reveal_with_fuel(digits_value, 2);
    } else {
        assert(longer.drop_last() =~= seq!['0'] + s.drop_last());
        assert(longer.last() == s.last());
        lemma_zero_in_front(s.drop_last());
    }
}

} // verus!
