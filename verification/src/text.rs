//! Text helpers over `str` and `String`, stated on the sequence of characters.

use vstd::prelude::*;
use vstd::string::*;

verus! {

/// `String::push` appends one character.
pub assume_specification[ String::push ](s: &mut String, c: char)
    ensures
        final(s)@ == old(s)@.push(c),
;

/// The characters of a string, in order.
pub fn chars_of(s: &str) -> (v: Vec<char>)
    ensures
        v@ == s@,
{
    let mut v: Vec<char> = Vec::new();
    for c in it: s.chars()
        invariant
            v@ == s@.take(it.index() as int),
            it.seq() == s@,
    {
        proof {
            assert(s@.take(it.index() as int + 1) =~= s@.take(it.index() as int).push(c));
        }
        v.push(c);
    }
    assert(s@.take(s@.len() as int) =~= s@);
    v
}

/// The string made of the characters `v[from..to]`.
pub fn text_between(v: &Vec<char>, from: usize, to: usize) -> (s: String)
    requires
        from <= to <= v@.len(),
    ensures
        s@ == v@.subrange(from as int, to as int),
{
    let mut s = String::new();
    let mut i: usize = from;
    while i < to
        invariant
            from <= i <= to <= v@.len(),
            s@ == v@.subrange(from as int, i as int),
        decreases to - i,
    {
        s.push(v[i]);
        proof {
            assert(v@.subrange(from as int, i as int + 1) =~= v@.subrange(
                from as int,
                i as int,
            ).push(v@[i as int]));
        }
        i = i + 1;
    }
    s
}

/// Bytes of a string in UTF-8.
pub fn byte_len(s: &str) -> (n: usize)
    ensures
        n == vstd::utf8::encode_utf8(s@).len(),
{
    s.as_bytes().len()
}

/// Whether two strings hold the same characters.
pub fn same_text(a: &str, b: &str) -> (r: bool)
    ensures
        r == (a@ == b@),
{
    a.to_owned() == b.to_owned()
}

/// `a` followed by `b`.
pub fn joined(a: &str, b: &str) -> (s: String)
    ensures
        s@ == a@ + b@,
{
    let mut s = a.to_owned();
    s.append(b);
    s
}

/// Whether `c` has the Unicode `White_Space` property.
pub open spec fn is_space(c: char) -> bool {
    ||| '\u{9}' <= c <= '\u{d}'
    ||| c == ' '
    ||| c == '\u{85}'
    ||| c == '\u{a0}'
    ||| c == '\u{1680}'
    ||| '\u{2000}' <= c <= '\u{200a}'
    ||| c == '\u{2028}'
    ||| c == '\u{2029}'
    ||| c == '\u{202f}'
    ||| c == '\u{205f}'
    ||| c == '\u{3000}'
}

/// Whether `c` is white space.
pub fn char_is_space(c: char) -> (r: bool)
    ensures
        r == is_space(c),
{
    ('\u{9}' <= c && c <= '\u{d}') || c == ' ' || c == '\u{85}' || c == '\u{a0}' || c == '\u{1680}'
        || ('\u{2000}' <= c && c <= '\u{200a}') || c == '\u{2028}' || c == '\u{2029}' || c
        == '\u{202f}' || c == '\u{205f}' || c == '\u{3000}'
}

/// `s` without the white space in front.
pub open spec fn trimmed_start(s: Seq<char>) -> Seq<char>
    decreases s.len(),
{
    if s.len() > 0 && is_space(s[0]) {
        trimmed_start(s.drop_first())
    } else {
        s
    }
}

/// `s` without the white space behind.
pub open spec fn trimmed_end(s: Seq<char>) -> Seq<char>
    decreases s.len(),
{
    if s.len() > 0 && is_space(s.last()) {
        trimmed_end(s.drop_last())
    } else {
        s
    }
}

/// `s` without the white space around it.
pub open spec fn trimmed(s: Seq<char>) -> Seq<char> {
    trimmed_end(trimmed_start(s))
}

/// `s` without the white space around it.
pub fn trim(s: &str) -> (r: String)
    ensures
        r@ == trimmed(s@),
{
    let v = chars_of(s);
    let mut from: usize = 0;
    assert(s@.skip(0) =~= s@);
    while from < v.len() && char_is_space(v[from])
        invariant
            from <= v@.len(),
            v@ == s@,
            trimmed_start(s@.skip(from as int)) == trimmed_start(s@),
        decreases v@.len() - from,
    {
        proof {
            assert(s@.skip(from as int).drop_first() =~= s@.skip(from as int + 1));
        }
        from = from + 1;
    }
    let ghost rest = s@.skip(from as int);
    assert(trimmed_start(s@) == rest);
    let mut to: usize = v.len();
    assert(rest =~= v@.subrange(from as int, to as int));
    while to > from && char_is_space(v[to - 1])
        invariant
            from <= to <= v@.len(),
            trimmed_end(v@.subrange(from as int, to as int)) == trimmed_end(rest),
        decreases to - from,
    {
        proof {
            assert(v@.subrange(from as int, to as int).drop_last() =~= v@.subrange(
                from as int,
                to as int - 1,
            ));
        }
        to = to - 1;
    }
    text_between(&v, from, to)
}

/// Text without white space at its ends is its own trimming.
pub proof fn trim_of_solid(s: Seq<char>)
    requires
        forall|i: int| 0 <= i < s.len() ==> !is_space(#[trigger] s[i]),
    ensures
        trimmed(s) == s,
{
}

/// Whether `s` begins with `prefix`.
pub fn starts_with(s: &str, prefix: &str) -> (r: bool)
    ensures
        r == prefix@.is_prefix_of(s@),
{
    let v = chars_of(s);
    let p = chars_of(prefix);
    if p.len() > v.len() {
        return false;
    }
    let mut i: usize = 0;
    while i < p.len()
        invariant
            i <= p@.len() <= v@.len(),
            v@ == s@,
            p@ == prefix@,
            forall|j: int| 0 <= j < i ==> p@[j] == v@[j],
        decreases p@.len() - i,
    {
        if v[i] != p[i] {
            return false;
        }
        i = i + 1;
    }
    assert(p@ =~= v@.subrange(0, p@.len() as int));
    true
}

/// Whether `a` comes before `b` in the order of strings: character by
/// character, a prefix first.
pub open spec fn precedes(a: Seq<char>, b: Seq<char>) -> bool
    decreases a.len(),
{
    if b.len() == 0 {
        false
    } else if a.len() == 0 {
        true
    } else if a[0] != b[0] {
        a[0] < b[0]
    } else {
        precedes(a.drop_first(), b.drop_first())
    }
}

/// No text comes before itself.
pub proof fn precedes_is_strict(a: Seq<char>)
    ensures
        !precedes(a, a),
    decreases a.len(),
{
    if a.len() > 0 {
        precedes_is_strict(a.drop_first());
    }
}

/// Of two different texts one comes before the other.
pub proof fn precedes_is_total(a: Seq<char>, b: Seq<char>)
    ensures
        precedes(a, b) || precedes(b, a) || a == b,
    decreases a.len(),
{
    if a.len() == 0 || b.len() == 0 {
        if a.len() == b.len() {
            assert(a =~= b);
        }
    } else {
        precedes_is_total(a.drop_first(), b.drop_first());
        if a[0] == b[0] && a.drop_first() == b.drop_first() {
            assert(a =~= seq![a[0]] + a.drop_first());
            assert(b =~= seq![b[0]] + b.drop_first());
        }
    }
}

/// The order of texts is transitive.
pub proof fn precedes_is_transitive(a: Seq<char>, b: Seq<char>, c: Seq<char>)
    requires
        precedes(a, b),
        precedes(b, c),
    ensures
        precedes(a, c),
    decreases a.len(),
{
    if a.len() > 0 && b.len() > 0 && c.len() > 0 && a[0] == b[0] && b[0] == c[0] {
        precedes_is_transitive(a.drop_first(), b.drop_first(), c.drop_first());
    }
}

/// Whether `a` comes before `b` in the order of strings.
pub fn text_precedes(a: &str, b: &str) -> (r: bool)
    ensures
        r == precedes(a@, b@),
{
    let x = chars_of(a);
    let y = chars_of(b);
    let mut i: usize = 0;
    assert(x@.skip(0) =~= x@ && y@.skip(0) =~= y@);
    while i < x.len() && i < y.len() && x[i] == y[i]
        invariant
            i <= x@.len(),
            i <= y@.len(),
            precedes(x@, y@) == precedes(x@.skip(i as int), y@.skip(i as int)),
        decreases x@.len() - i,
    {
        assert(x@.skip(i as int).drop_first() =~= x@.skip(i as int + 1));
        assert(y@.skip(i as int).drop_first() =~= y@.skip(i as int + 1));
        i = i + 1;
    }
    if i == y.len() {
        false
    } else if i == x.len() {
        true
    } else {
        x[i] < y[i]
    }
}

/// Where `c` first stands in `s`; the length of `s` if it does not.
pub open spec fn first_at(s: Seq<char>, c: char) -> nat
    decreases s.len(),
{
    if s.len() == 0 || s[0] == c {
        0
    } else {
        1 + first_at(s.drop_first(), c)
    }
}

/// What [`first_at`] finds is the character, with none before it.
pub proof fn first_at_is_first(s: Seq<char>, c: char)
    ensures
        first_at(s, c) <= s.len(),
        first_at(s, c) < s.len() ==> s[first_at(s, c) as int] == c,
        forall|i: int| 0 <= i < first_at(s, c) ==> #[trigger] s[i] != c,
    decreases s.len(),
{
    if s.len() > 0 && s[0] != c {
        first_at_is_first(s.drop_first(), c);
        assert forall|i: int| 0 <= i < first_at(s, c) implies #[trigger] s[i] != c by {
            if i > 0 {
                assert(s[i] == s.drop_first()[i - 1]);
            }
        }
    }
}

/// A place that holds the character, with none before it, is [`first_at`].
pub proof fn first_at_is(s: Seq<char>, c: char, at: nat)
    requires
        at <= s.len(),
        at < s.len() ==> s[at as int] == c,
        forall|i: int| 0 <= i < at ==> #[trigger] s[i] != c,
    ensures
        first_at(s, c) == at,
{
    first_at_is_first(s, c);
    let f = first_at(s, c);
    if f < at {
        assert(s[f as int] != c);
    }
}

/// Where `c` first stands in `v`; the length of `v` if it does not.
pub fn find_char(v: &Vec<char>, c: char) -> (at: usize)
    ensures
        at == first_at(v@, c),
        at <= v@.len(),
{
    let mut i: usize = 0;
    while i < v.len() && v[i] != c
        invariant
            i <= v@.len(),
            forall|j: int| 0 <= j < i ==> #[trigger] v@[j] != c,
        decreases v@.len() - i,
    {
        i = i + 1;
    }
    proof {
        first_at_is(v@, c, i as nat);
    }
    i
}

/// Where `pattern` first stands in `s`.
pub open spec fn first_match(s: Seq<char>, pattern: Seq<char>) -> Option<nat>
    decreases s.len(),
{
    if pattern.is_prefix_of(s) {
        Some(0)
    } else if s.len() == 0 {
        None
    } else {
        match first_match(s.drop_first(), pattern) {
            Some(i) => Some(i + 1),
            None => None,
        }
    }
}

/// What [`first_match`] finds is an occurrence, and it finds one if there is one.
pub proof fn first_match_is_match(s: Seq<char>, pattern: Seq<char>)
    ensures
        first_match(s, pattern) matches Some(i) ==> {
            &&& i + pattern.len() <= s.len()
            &&& pattern.is_prefix_of(s.skip(i as int))
        },
        first_match(s, pattern) is None ==> forall|i: int|
            0 <= i <= s.len() ==> !pattern.is_prefix_of(#[trigger] s.skip(i)),
    decreases s.len(),
{
    assert(s.skip(0) =~= s);
    if !pattern.is_prefix_of(s) && s.len() > 0 {
        let rest = s.drop_first();
        first_match_is_match(rest, pattern);
        if let Some(i) = first_match(rest, pattern) {
            assert(rest.skip(i as int) =~= s.skip(i as int + 1));
        } else {
            assert forall|i: int| 0 <= i <= s.len() implies !pattern.is_prefix_of(
                #[trigger] s.skip(i),
            ) by {
                if i > 0 {
                    assert(s.skip(i) =~= rest.skip(i - 1));
                }
            }
        }
    } else if !pattern.is_prefix_of(s) {
        assert forall|i: int| 0 <= i <= s.len() implies !pattern.is_prefix_of(
            #[trigger] s.skip(i),
        ) by {
            assert(s.skip(i) =~= s);
        }
    }
}

/// Whether `pattern` stands in `v` from `at` on.
fn matches_at(v: &Vec<char>, at: usize, pattern: &Vec<char>) -> (r: bool)
    requires
        at <= v@.len(),
    ensures
        r == pattern@.is_prefix_of(v@.skip(at as int)),
{
    let len: usize = v.len();
    if pattern.len() > len - at {
        return false;
    }
    let mut i: usize = 0;
    while i < pattern.len()
        invariant
            i <= pattern@.len(),
            at + pattern@.len() <= len,
            len == v@.len(),
            forall|j: int| 0 <= j < i ==> pattern@[j] == v@[at + j],
        decreases pattern@.len() - i,
    {
        if v[at + i] != pattern[i] {
            assert(v@.skip(at as int)[i as int] != pattern@[i as int]);
            return false;
        }
        i = i + 1;
    }
    assert(pattern@ =~= v@.skip(at as int).subrange(0, pattern@.len() as int));
    true
}

/// Where `pattern` first stands in `v`.
pub fn find_text(v: &Vec<char>, pattern: &str) -> (at: Option<usize>)
    ensures
        at is Some == first_match(v@, pattern@) is Some,
        at matches Some(i) ==> Some(i as nat) == first_match(v@, pattern@) && i + pattern@.len()
            <= v@.len(),
{
    let p = chars_of(pattern);
    let mut i: usize = 0;
    assert(v@.skip(0) =~= v@);
    proof {
        first_match_is_match(v@, pattern@);
    }
    loop
        invariant
            i <= v@.len(),
            p@ == pattern@,
            first_match(v@, pattern@) == (match first_match(v@.skip(i as int), pattern@) {
                Some(k) => Some((k + i) as nat),
                None => None,
            }),
            first_match(v@, pattern@) matches Some(k) ==> k + pattern@.len() <= v@.len(),
        decreases v@.len() - i,
    {
        if matches_at(v, i, &p) {
            return Some(i);
        }
        if i == v.len() {
            return None;
        }
        proof {
            assert(v@.skip(i as int).drop_first() =~= v@.skip(i as int + 1));
        }
        i = i + 1;
    }
}

/// The number that decimal digits stand for.
pub open spec fn digits_value(s: Seq<char>) -> nat
    decreases s.len(),
{
    if s.len() == 0 {
        0
    } else {
        digits_value(s.drop_last()) * 10 + (s.last() as nat - '0' as nat) as nat
    }
}

/// Whether `s` is made of decimal digits.
pub open spec fn all_digits(s: Seq<char>) -> bool {
    forall|i: int| 0 <= i < s.len() ==> '0' <= #[trigger] s[i] <= '9'
}

/// The digits of a number text, behind the sign that it may have.
pub open spec fn unsigned_digits(s: Seq<char>) -> Seq<char> {
    if s.len() > 0 && s[0] == '+' {
        s.drop_first()
    } else {
        s
    }
}

/// The number that a text stands for: an optional plus sign and at least one
/// digit, for a number of at most `max`.
pub open spec fn parsed_number(s: Seq<char>, max: nat) -> Option<nat> {
    let digits = unsigned_digits(s);
    if digits.len() > 0 && all_digits(digits) && digits_value(digits) <= max {
        Some(digits_value(digits))
    } else {
        None
    }
}

proof fn digits_value_grows(s: Seq<char>, n: nat)
    requires
        all_digits(s),
        n <= s.len(),
    ensures
        digits_value(s.take(n as int)) <= digits_value(s),
    decreases s.len() - n,
{
    if n < s.len() {
        digits_value_grows(s, n + 1);
        assert(s.take(n as int + 1).drop_last() =~= s.take(n as int));
    } else {
        assert(s.take(n as int) =~= s);
    }
}

/// The number of at most `max` that a text stands for.
pub fn parse_number(s: &str, max: u32) -> (r: Option<u32>)
    ensures
        r is Some == parsed_number(s@, max as nat) is Some,
        r matches Some(n) ==> Some(n as nat) == parsed_number(s@, max as nat),
{
    match parse_wide(s, max as u64) {
        Some(n) => Some(n as u32),
        None => None,
    }
}

/// The number of at most `max` that a text stands for.
pub fn parse_wide(s: &str, max: u64) -> (r: Option<u64>)
    ensures
        r is Some == parsed_number(s@, max as nat) is Some,
        r matches Some(n) ==> Some(n as nat) == parsed_number(s@, max as nat),
{
    let v = chars_of(s);
    let start: usize = if v.len() > 0 && v[0] == '+' {
        1
    } else {
        0
    };
    let ghost digits = unsigned_digits(s@);
    assert(digits =~= v@.skip(start as int));
    if start == v.len() {
        return None;
    }
    let mut value: u128 = 0;
    let mut over = false;
    let mut i: usize = start;
    assert(digits.take(0) =~= Seq::empty());
    while i < v.len()
        invariant
            start <= i <= v@.len(),
            start <= 1,
            v@ == s@,
            digits == v@.skip(start as int),
            digits == unsigned_digits(s@),
            all_digits(digits.take(i - start)),
            !over ==> value == digits_value(digits.take(i - start)) && value <= max,
            over ==> digits_value(digits.take(i - start)) > max,
        decreases v@.len() - i,
    {
        let c: char = v[i];
        assert(digits[i - start] == c);
        if c < '0' || c > '9' {
            return None;
        }
        proof {
            let taken = digits.take(i - start + 1);
            assert(taken.drop_last() =~= digits.take(i - start));
            assert(taken.last() == c);
            assert forall|j: int| 0 <= j < taken.len() implies '0' <= #[trigger] taken[j]
                <= '9' by {
                if j < i - start {
                    assert(taken[j] == digits.take(i - start)[j]);
                }
            }
        }
        if !over {
            value = value * 10 + (c as u128 - 48);
            if value > max as u128 {
                over = true;
            }
        }
        i = i + 1;
    }
    assert(digits.take(v@.len() - start) =~= digits);
    if over {
        None
    } else {
        Some(value as u64)
    }
}

/// The decimal digits of `n`, most significant first.
pub open spec fn decimal_digits(n: nat) -> Seq<char>
    decreases n,
{
    if n < 10 {
        seq![('0' as u32 + n) as char]
    } else {
        decimal_digits(n / 10).push(('0' as u32 + n % 10) as char)
    }
}

/// A number written in decimal is read back as the number.
pub proof fn decimal_is_parsed(n: nat, max: nat)
    requires
        n <= max,
    ensures
        parsed_number(decimal_digits(n), max) == Some(n),
{
    decimal_has_value(n);
    assert(decimal_digits(n)[0] != '+');
}

proof fn decimal_has_value(n: nat)
    ensures
        decimal_digits(n).len() > 0,
        all_digits(decimal_digits(n)),
        digits_value(decimal_digits(n)) == n,
    decreases n,
{
    let s = decimal_digits(n);
    if n < 10 {
        assert(s.drop_last() =~= Seq::empty());
        assert(digits_value(Seq::empty()) == 0);
        assert(s.last() as nat == '0' as nat + n);
        assert(digits_value(s) == digits_value(s.drop_last()) * 10 + n);
    } else {
        decimal_has_value(n / 10);
        assert(s.drop_last() =~= decimal_digits(n / 10));
        assert(s.last() as nat == '0' as nat + n % 10);
        assert forall|i: int| 0 <= i < s.len() implies '0' <= #[trigger] s[i] <= '9' by {
            if i < s.len() - 1 {
                assert(s[i] == decimal_digits(n / 10)[i]);
            }
        }
    }
}

/// `n` written in decimal.
pub fn decimal(n: u64) -> (s: String)
    ensures
        s@ == decimal_digits(n as nat),
    decreases n,
{
    let digit: u8 = (n % 10) as u8;
    let c: char = (48u8 + digit) as char;
    if n < 10 {
        let mut s = String::new();
        s.push(c);
        assert(s@ =~= decimal_digits(n as nat));
        s
    } else {
        let mut s = decimal(n / 10);
        s.push(c);
        s
    }
}

/// The first line of a text, without its line ending.
pub open spec fn first_line(s: Seq<char>) -> Seq<char> {
    let end = first_at(s, '\n') as int;
    if end < s.len() && end > 0 && s[end - 1] == '\r' {
        s.take(end - 1)
    } else {
        s.take(end)
    }
}

/// What follows the first line of a text.
pub open spec fn after_line(s: Seq<char>) -> Seq<char> {
    let end = first_at(s, '\n') as int;
    if end < s.len() {
        s.skip(end + 1)
    } else {
        Seq::empty()
    }
}

/// The first line of a text, and what follows it.
pub fn split_line(s: &str) -> (r: (String, String))
    ensures
        r.0@ == first_line(s@),
        r.1@ == after_line(s@),
        s@.len() > 0 ==> r.1@.len() < s@.len(),
{
    let v = chars_of(s);
    let end: usize = find_char(&v, '\n');
    let stop: usize = if end < v.len() && end > 0 && v[end - 1] == '\r' {
        end - 1
    } else {
        end
    };
    let line = text_between(&v, 0, stop);
    assert(line@ =~= first_line(s@));
    let rest = if end < v.len() {
        text_between(&v, end + 1, v.len())
    } else {
        String::new()
    };
    assert(rest@ =~= after_line(s@));
    (line, rest)
}

/// The first word of a text: what stands between white space.
pub open spec fn first_word(s: Seq<char>) -> Option<Seq<char>> {
    let t = trimmed_start(s);
    if t.len() == 0 {
        None
    } else {
        Some(t.take(word_end(t) as int))
    }
}

/// How many characters stand before the first white space.
pub open spec fn word_end(s: Seq<char>) -> nat
    decreases s.len(),
{
    if s.len() == 0 || is_space(s[0]) {
        0
    } else {
        1 + word_end(s.drop_first())
    }
}

/// The first word of a text.
pub fn word_of(s: &str) -> (word: Option<String>)
    ensures
        word is Some == first_word(s@) is Some,
        word matches Some(w) ==> Some(w@) == first_word(s@),
{
    let v = chars_of(s);
    let mut from: usize = 0;
    assert(s@.skip(0) =~= s@);
    while from < v.len() && char_is_space(v[from])
        invariant
            from <= v@.len(),
            v@ == s@,
            trimmed_start(s@.skip(from as int)) == trimmed_start(s@),
        decreases v@.len() - from,
    {
        assert(s@.skip(from as int).drop_first() =~= s@.skip(from as int + 1));
        from = from + 1;
    }
    let ghost t = s@.skip(from as int);
    assert(trimmed_start(s@) == t);
    if from == v.len() {
        return None;
    }
    let mut to: usize = from;
    assert(t.skip(0) =~= t);
    while to < v.len() && !char_is_space(v[to])
        invariant
            from <= to <= v@.len(),
            v@ == s@,
            t == s@.skip(from as int),
            word_end(t) == (to - from) + word_end(t.skip(to - from)),
        decreases v@.len() - to,
    {
        assert(t.skip(to - from).drop_first() =~= t.skip(to - from + 1));
        to = to + 1;
    }
    let word = text_between(&v, from, to);
    assert(word@ =~= t.take(to - from));
    Some(word)
}

/// Whether `s` ends with `suffix`.
pub fn ends_with(s: &str, suffix: &str) -> (r: bool)
    ensures
        r == suffix@.is_suffix_of(s@),
{
    let v = chars_of(s);
    let p = chars_of(suffix);
    if p.len() > v.len() {
        return false;
    }
    let from: usize = v.len() - p.len();
    let end = text_between(&v, from, v.len());
    same_text(end.as_str(), suffix)
}

/// `std::str::from_utf8`: the text of the bytes, exactly when they are valid
/// UTF-8.
#[verifier::external_body]
pub(crate) fn utf8_text(bytes: &[u8]) -> (text: Option<String>)
    ensures
        text is Some == vstd::utf8::valid_utf8(bytes@),
        text is Some ==> text->0@ == vstd::utf8::decode_utf8(bytes@),
{
    std::str::from_utf8(bytes).ok().map(|text| text.to_owned())
}

/// The text of bytes, with a replacement character for what is no UTF-8.
pub uninterp spec fn utf8_lossy(bytes: Seq<u8>) -> Seq<char>;

/// `String::from_utf8_lossy`: a function of the bytes. Valid UTF-8 is decoded as
/// it is.
#[verifier::external_body]
pub(crate) fn lossy_text(bytes: &[u8]) -> (text: String)
    ensures
        text@ == utf8_lossy(bytes@),
        vstd::utf8::valid_utf8(bytes@) ==> text@ == vstd::utf8::decode_utf8(bytes@),
{
    String::from_utf8_lossy(bytes).into_owned()
}

/// The number that a text with an optional sign stands for, if it fits an `i32`.
pub open spec fn parsed_signed(s: Seq<char>) -> Option<int> {
    if s.len() > 0 && s[0] == '-' {
        let digits = s.drop_first();
        if digits.len() > 0 && all_digits(digits) && digits_value(digits) <= 2147483648 {
            Some(-(digits_value(digits) as int))
        } else {
            None
        }
    } else {
        match parsed_number(s, 2147483647) {
            Some(n) => Some(n as int),
            None => None,
        }
    }
}

/// The number that a text with an optional sign stands for.
pub fn parse_signed(s: &str) -> (r: Option<i32>)
    ensures
        r is Some == parsed_signed(s@) is Some,
        r matches Some(n) ==> Some(n as int) == parsed_signed(s@),
{
    let v = chars_of(s);
    if v.len() > 0 && v[0] == '-' {
        let digits = text_between(&v, 1, v.len());
        assert(digits@ =~= s@.drop_first());
        if v.len() > 1 && v[1] == '+' {
            assert(digits@[0] == '+');
            return None;
        }
        match parse_number(digits.as_str(), 2147483648) {
            Some(n) => Some((0 - n as i64) as i32),
            None => None,
        }
    } else {
        match parse_number(s, 2147483647) {
            Some(n) => Some(n as i32),
            None => None,
        }
    }
}

proof fn start_is_trimmed(s: Seq<char>) -> (from: int)
    ensures
        0 <= from <= s.len(),
        trimmed_start(s) == s.skip(from),
        forall|i: int| 0 <= i < from ==> is_space(#[trigger] s[i]),
        from < s.len() ==> !is_space(s[from]),
    decreases s.len(),
{
    if s.len() > 0 && is_space(s[0]) {
        let rest = s.drop_first();
        let from = start_is_trimmed(rest);
        assert(rest.skip(from) =~= s.skip(from + 1));
        assert forall|i: int| 0 <= i < from + 1 implies is_space(#[trigger] s[i]) by {
            if i > 0 {
                assert(is_space(rest[i - 1]));
            }
        }
        from + 1
    } else {
        assert(s.skip(0) =~= s);
        0
    }
}

proof fn end_is_trimmed(s: Seq<char>) -> (to: int)
    ensures
        0 <= to <= s.len(),
        trimmed_end(s) == s.take(to),
        forall|i: int| to <= i < s.len() ==> is_space(#[trigger] s[i]),
        to > 0 ==> !is_space(s[to - 1]),
    decreases s.len(),
{
    if s.len() > 0 && is_space(s.last()) {
        let rest = s.drop_last();
        let to = end_is_trimmed(rest);
        assert(rest.take(to) =~= s.take(to));
        assert forall|i: int| to <= i < s.len() implies is_space(#[trigger] s[i]) by {
            if i < s.len() - 1 {
                assert(is_space(rest[i]));
            }
        }
        to
    } else {
        assert(s.take(s.len() as int) =~= s);
        s.len() as int
    }
}

/// Trimming takes white space from both ends and nothing else: what is left begins
/// and ends with something else, and stands in the text between white space.
pub proof fn trimming_takes_space_only(s: Seq<char>) -> (between: (int, int))
    ensures
        0 <= between.0 <= between.1 <= s.len(),
        trimmed(s) == s.subrange(between.0, between.1),
        forall|i: int| 0 <= i < between.0 ==> is_space(#[trigger] s[i]),
        forall|i: int| between.1 <= i < s.len() ==> is_space(#[trigger] s[i]),
        trimmed(s).len() > 0 ==> !is_space(trimmed(s).first()) && !is_space(trimmed(s).last()),
{
    let from = start_is_trimmed(s);
    let rest = trimmed_start(s);
    let to = end_is_trimmed(rest);
    assert(rest.take(to) =~= s.subrange(from, from + to));
    assert forall|i: int| from + to <= i < s.len() implies is_space(#[trigger] s[i]) by {
        assert(is_space(rest[i - from]));
    }
    if to > 0 {
        assert(trimmed(s).first() == s[from]);
        assert(trimmed(s).last() == rest[to - 1]);
    }
    (from, from + to)
}

/// The white space of Unicode: 25 characters, among them the blank, the tabulator and
/// the ends of lines.
pub proof fn space_is_unicode_white_space(c: char)
    ensures
        is_space(c) <==> {
            ||| 0x9 <= c as u32 <= 0xd
            ||| c as u32 == 0x20
            ||| c as u32 == 0x85
            ||| c as u32 == 0xa0
            ||| c as u32 == 0x1680
            ||| 0x2000 <= c as u32 <= 0x200a
            ||| 0x2028 <= c as u32 <= 0x2029
            ||| c as u32 == 0x202f
            ||| c as u32 == 0x205f
            ||| c as u32 == 0x3000
        },
{
}

/// What [`first_match`] finds is the first occurrence.
pub proof fn first_match_is_first(s: Seq<char>, pattern: Seq<char>, i: int)
    requires
        0 <= i <= s.len(),
        pattern.is_prefix_of(s.skip(i)),
    ensures
        first_match(s, pattern) is Some,
        first_match(s, pattern)->0 <= i,
    decreases s.len(),
{
    assert(s.skip(0) =~= s);
    if !pattern.is_prefix_of(s) {
        if s.len() > 0 {
            assert(s.skip(i) =~= s.drop_first().skip(i - 1));
            first_match_is_first(s.drop_first(), pattern, i - 1);
        } else {
            assert(s.skip(i) =~= s);
        }
    }
}

/// A text is its first line, the end of that line if it has one, and what follows:
/// the line holds no line feed, and its end is a line feed, with a carriage return
/// before it or not.
pub proof fn line_and_rest_are_the_text(s: Seq<char>)
    ensures
        first_at(s, '\n') == s.len() ==> first_line(s) == s && after_line(s).len() == 0,
        first_at(s, '\n') < s.len() ==> {
            ||| s == first_line(s) + seq!['\n'] + after_line(s) && (first_line(s).len() > 0
                ==> first_line(s).last() != '\r')
            ||| s == first_line(s) + seq!['\r', '\n'] + after_line(s)
        },
        forall|i: int| 0 <= i < first_line(s).len() ==> #[trigger] first_line(s)[i] != '\n',
{
    first_at_is_first(s, '\n');
    let end = first_at(s, '\n') as int;
    if end == s.len() {
        assert(s.take(end) =~= s);
    } else {
        if end > 0 && s[end - 1] == '\r' {
            assert(s =~= first_line(s) + seq!['\r', '\n'] + after_line(s));
        } else {
            assert(s =~= first_line(s) + seq!['\n'] + after_line(s));
        }
    }
    assert forall|i: int| 0 <= i < first_line(s).len() implies #[trigger] first_line(s)[i]
        != '\n' by {
        assert(first_line(s)[i] == s[i]);
    }
}

proof fn word_ends_at_space(s: Seq<char>)
    ensures
        word_end(s) <= s.len(),
        word_end(s) < s.len() ==> is_space(s[word_end(s) as int]),
        forall|i: int| 0 <= i < word_end(s) ==> !is_space(#[trigger] s[i]),
    decreases s.len(),
{
    if s.len() > 0 && !is_space(s[0]) {
        word_ends_at_space(s.drop_first());
        assert forall|i: int| 0 <= i < word_end(s) implies !is_space(#[trigger] s[i]) by {
            if i > 0 {
                assert(s[i] == s.drop_first()[i - 1]);
            }
        }
    }
}

/// The first word of a text is not empty and holds no white space; before it stands
/// nothing else, and behind it white space or nothing. A text has one unless it is
/// white space alone.
pub proof fn first_word_stands_between_space(s: Seq<char>) -> (from: int)
    ensures
        0 <= from <= s.len(),
        forall|i: int| 0 <= i < from ==> is_space(#[trigger] s[i]),
        first_word(s) is None <==> from == s.len(),
        first_word(s) matches Some(word) ==> {
            &&& word.len() > 0
            &&& from + word.len() <= s.len()
            &&& word == s.subrange(from, from + word.len())
            &&& forall|i: int| 0 <= i < word.len() ==> !is_space(#[trigger] word[i])
            &&& from + word.len() < s.len() ==> is_space(s[from + word.len()])
        },
{
    let from = start_is_trimmed(s);
    let t = trimmed_start(s);
    word_ends_at_space(t);
    if t.len() > 0 {
        let word = t.take(word_end(t) as int);
        assert(t[0] == s[from]);
        assert(word =~= s.subrange(from, from + word.len()));
        assert forall|i: int| 0 <= i < word.len() implies !is_space(#[trigger] word[i]) by {
            assert(word[i] == t[i]);
        }
    }
    from
}

/// What is read as a number is made of decimal digits, with a plus sign in front or
/// not, and within the greatest number allowed. Another digit behind makes ten times
/// the number and the digit.
pub proof fn numbers_are_made_of_digits(s: Seq<char>, max: nat, digit: char)
    ensures
        parsed_number(s, max) matches Some(n) ==> {
            &&& n <= max
            &&& s.len() > 0
            &&& '0' <= s.last() <= '9'
            &&& forall|i: int|
                0 < i < s.len() ==> '0' <= #[trigger] s[i] <= '9'
            &&& '0' <= s[0] <= '9' || s[0] == '+'
        },
        '0' <= digit <= '9' ==> (parsed_number(s, max) matches Some(n) ==> parsed_number(
            s.push(digit),
            10 * max + 9,
        ) == Some((10 * n + (digit as nat - '0' as nat)) as nat)),
{
    if parsed_number(s, max) is Some {
        let digits = unsigned_digits(s);
        assert forall|i: int| 0 < i < s.len() implies '0' <= #[trigger] s[i] <= '9' by {
            if s[0] == '+' {
                assert(digits[i - 1] == s[i]);
            }
        }
        if s[0] != '+' {
            assert(digits[0] == s[0]);
        }
        assert(digits.last() == s.last());
        if '0' <= digit <= '9' {
            let longer = s.push(digit);
            assert(unsigned_digits(longer) =~= digits.push(digit));
            assert(digits.push(digit).drop_last() =~= digits);
            assert(all_digits(digits.push(digit)));
        }
    }
}

/// A minus sign in front makes the number negative; without one a signed number is
/// read like any other, as far as it fits.
pub proof fn signs_are_read(s: Seq<char>)
    requires
        s.len() > 0,
        s[0] != '+',
        s[0] != '-',
    ensures
        parsed_signed(s) is Some <==> parsed_number(s, 2147483647) is Some,
        parsed_signed(s) matches Some(n) ==> n == parsed_number(s, 2147483647)->0,
        parsed_signed(seq!['-'] + s) is Some <==> parsed_number(s, 2147483648) is Some,
        parsed_signed(seq!['-'] + s) matches Some(n) ==> n == -(parsed_number(s, 2147483648)->0),
{
    assert((seq!['-'] + s).drop_first() =~= s);
}

/// Texts are in the order of the first character in which they differ, and a text
/// comes before what it begins.
pub proof fn order_goes_by_first_difference(common: Seq<char>, a: Seq<char>, b: Seq<char>)
    ensures
        precedes(common + a, common + b) == precedes(a, b),
        a.len() > 0 && b.len() > 0 && a[0] < b[0] ==> precedes(a, b),
        b.len() > 0 ==> precedes(Seq::empty(), b),
    decreases common.len(),
{
    if common.len() == 0 {
        assert(common + a =~= a);
        assert(common + b =~= b);
    } else {
        order_goes_by_first_difference(common.drop_first(), a, b);
        assert((common + a).drop_first() =~= common.drop_first() + a);
        assert((common + b).drop_first() =~= common.drop_first() + b);
    }
}

/// What is written in decimal begins with a digit.
pub proof fn decimal_starts_with_digit(n: nat)
    ensures
        decimal_digits(n).len() > 0,
        '0' <= decimal_digits(n)[0] <= '9',
{
    decimal_has_value(n);
}

} // verus!
