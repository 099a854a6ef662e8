//! Character-level text operations and their mathematical meaning.
//!
//! Every operation is stated over `Seq<char>`, the view of `str` and `String`. The
//! executable functions read a text once into a `Vec<char>` and cut their results out of
//! the text by character positions.

use vstd::prelude::*;

verus! {

/// The characters of `s`, in order.
pub fn chars_of(s: &str) -> (out: Vec<char>)
    ensures
        out@ == s@,
{
    broadcast use vstd::string::group_string_axioms;

    let mut out: Vec<char> = Vec::new();
    for c in it: s.chars()
        invariant
            it.seq() == s@,
            out@ == s@.take(it.index()),
    {
        out.push(c);
        assert(out@ =~= s@.take(it.index() + 1));
    }
    assert(out@ =~= s@);
    out
}

/// Whether `a` and `b` hold the same characters.
pub fn same_text(a: &str, b: &str) -> (r: bool)
    ensures
        r == (a@ == b@),
{
    a.to_owned() == b.to_owned()
}

/// `needle` stands in `hay` at position `at`.
pub open spec fn occurs_at(hay: Seq<char>, needle: Seq<char>, at: int) -> bool {
    &&& 0 <= at
    &&& at + needle.len() <= hay.len()
    &&& hay.subrange(at, at + needle.len()) == needle
}

/// Position of the first occurrence of `needle` in `hay` that starts at or after `from`.
pub open spec fn find_from(hay: Seq<char>, needle: Seq<char>, from: int) -> Option<int>
    decreases hay.len() - from + 1,
{
    if from < 0 || from + needle.len() > hay.len() {
        None
    } else if occurs_at(hay, needle, from) {
        Some(from)
    } else {
        find_from(hay, needle, from + 1)
    }
}

/// `find_from` gives the least position at or after `from` where `needle` occurs, and
/// `None` exactly when there is no such position.
pub proof fn find_from_is_first(hay: Seq<char>, needle: Seq<char>, from: int)
    requires
        0 <= from,
    ensures
        match find_from(hay, needle, from) {
            Some(at) => {
                &&& from <= at
                &&& occurs_at(hay, needle, at)
                &&& forall|j: int| from <= j < at ==> !occurs_at(hay, needle, j)
            },
            None => forall|j: int| from <= j ==> !occurs_at(hay, needle, j),
        },
    decreases hay.len() - from + 1,
{
    if from + needle.len() > hay.len() {
    } else if occurs_at(hay, needle, from) {
    } else {
        find_from_is_first(hay, needle, from + 1);
    }
}

/// Searching the text after position `cut` is searching the whole text from `cut` on.
pub proof fn find_from_skip(hay: Seq<char>, needle: Seq<char>, cut: int, from: int)
    requires
        0 <= cut <= hay.len(),
        0 <= from,
    ensures
        find_from(hay.skip(cut), needle, from) == match find_from(hay, needle, cut + from) {
            Some(at) => Some(at - cut),
            None => None,
        },
    decreases hay.len() - cut - from + 1,
{
    let tail = hay.skip(cut);
    if from + needle.len() > tail.len() {
    } else {
        assert(tail.subrange(from, from + needle.len()) =~= hay.subrange(
            cut + from,
            cut + from + needle.len(),
        ));
        if occurs_at(tail, needle, from) {
        } else {
            find_from_skip(hay, needle, cut, from + 1);
        }
    }
}

/// Whether `needle` stands in `hay` at position `at`.
pub fn matches_at(hay: &Vec<char>, needle: &Vec<char>, at: usize) -> (r: bool)
    ensures
        r == occurs_at(hay@, needle@, at as int),
{
    if needle.len() > hay.len() || at > hay.len() - needle.len() {
        return false;
    }
    let mut k: usize = 0;
    while k < needle.len()
        invariant
            k <= needle.len(),
            at + needle.len() <= hay.len(),
            forall|j: int| 0 <= j < k ==> hay@[at + j] == needle@[j],
        decreases needle.len() - k,
    {
        if hay[at + k] != needle[k] {
            assert(hay@.subrange(at as int, at + needle.len())[k as int] != needle@[k as int]);
            return false;
        }
        k += 1;
    }
    assert(hay@.subrange(at as int, at + needle.len()) =~= needle@);
    true
}

/// Position of the first occurrence of `needle` in `hay` at or after `from`.
pub fn find(hay: &Vec<char>, needle: &Vec<char>, from: usize) -> (r: Option<usize>)
    ensures
        r matches Some(at) ==> find_from(hay@, needle@, from as int) == Some(at as int),
        r matches Some(at) ==> from <= at && at + needle.len() <= hay.len(),
        r is None ==> find_from(hay@, needle@, from as int) is None,
{
    if needle.len() > hay.len() || from > hay.len() - needle.len() {
        return None;
    }
    let last: usize = hay.len() - needle.len();
    let mut at: usize = from;
    loop
        invariant
            from <= at <= last,
            last == hay.len() - needle.len(),
            find_from(hay@, needle@, from as int) == find_from(hay@, needle@, at as int),
        decreases last - at,
    {
        if matches_at(hay, needle, at) {
            return Some(at);
        }
        if at == last {
            assert(find_from(hay@, needle@, at + 1) is None);
            return None;
        }
        at += 1;
    }
}

/// The characters of `s` from position `from` up to, not including, position `to`.
pub fn slice(s: &Vec<char>, from: usize, to: usize) -> (out: Vec<char>)
    requires
        from <= to <= s.len(),
    ensures
        out@ == s@.subrange(from as int, to as int),
{
    let mut out: Vec<char> = Vec::new();
    let mut k: usize = from;
    while k < to
        invariant
            from <= k <= to <= s.len(),
            out@ == s@.subrange(from as int, k as int),
        decreases to - k,
    {
        out.push(s[k]);
        assert(out@ =~= s@.subrange(from as int, k + 1));
        k += 1;
    }
    out
}

/// `s` up to the first occurrence of `stop`; all of `s` where `stop` does not occur.
pub open spec fn up_to(s: Seq<char>, stop: Seq<char>) -> Seq<char> {
    match find_from(s, stop, 0) {
        Some(at) => s.take(at),
        None => s,
    }
}

/// Length of `s` up to the first occurrence of `stop`.
pub fn length_up_to(s: &Vec<char>, stop: &Vec<char>) -> (r: usize)
    ensures
        r <= s.len(),
        s@.take(r as int) == up_to(s@, stop@),
{
    match find(s, stop, 0) {
        Some(at) => at,
        None => {
            assert(s@.take(s.len() as int) =~= s@);
            s.len()
        },
    }
}

/// `s` begins with `prefix`.
pub open spec fn starts_with(s: Seq<char>, prefix: Seq<char>) -> bool {
    occurs_at(s, prefix, 0)
}

/// `s` ends with `suffix`.
pub open spec fn ends_with(s: Seq<char>, suffix: Seq<char>) -> bool {
    occurs_at(s, suffix, s.len() - suffix.len())
}

/// Whether `s` begins with `prefix`.
pub fn has_prefix(s: &str, prefix: &str) -> (r: bool)
    ensures
        r == starts_with(s@, prefix@),
{
    let hay = chars_of(s);
    let needle = chars_of(prefix);
    matches_at(&hay, &needle, 0)
}

/// Whether `s` ends with `suffix`.
pub fn has_suffix(s: &str, suffix: &str) -> (r: bool)
    ensures
        r == ends_with(s@, suffix@),
{
    let hay = chars_of(s);
    let needle = chars_of(suffix);
    if needle.len() > hay.len() {
        return false;
    }
    matches_at(&hay, &needle, hay.len() - needle.len())
}

/// Position of the last `c` in `s`.
pub open spec fn last_index_of(s: Seq<char>, c: char) -> Option<int>
    decreases s.len(),
{
    if s.len() == 0 {
        None
    } else if s.last() == c {
        Some(s.len() - 1)
    } else {
        last_index_of(s.drop_last(), c)
    }
}

/// What follows the last `c` in `s`; all of `s` where it holds no `c`.
pub open spec fn after_last(s: Seq<char>, c: char) -> Seq<char> {
    match last_index_of(s, c) {
        Some(at) => s.skip(at + 1),
        None => s,
    }
}

/// What follows the last `c` in `s`; all of `s` where it holds no `c`.
pub fn text_after_last(s: &str, c: char) -> (r: String)
    ensures
        r@ == after_last(s@, c),
{
    let hay = chars_of(s);
    let mut end: usize = hay.len();
    assert(s@.take(end as int) =~= s@);
    while end > 0
        invariant
            end <= hay.len(),
            hay@ == s@,
            last_index_of(s@, c) == last_index_of(s@.take(end as int), c),
        decreases end,
    {
        if hay[end - 1] == c {
            return s.substring_char(end, hay.len()).to_owned();
        }
        assert(s@.take(end as int).drop_last() =~= s@.take(end - 1));
        end -= 1;
    }
    s.to_owned()
}

/// An angle bracket, which chat clients put around a link to suppress its preview.
pub open spec fn is_bracket(c: char) -> bool {
    c == '<' || c == '>'
}

/// `s` without the angle brackets it begins with.
pub open spec fn trim_start(s: Seq<char>) -> Seq<char>
    decreases s.len(),
{
    if s.len() > 0 && is_bracket(s[0]) {
        trim_start(s.drop_first())
    } else {
        s
    }
}

/// `s` without the angle brackets it ends with.
pub open spec fn trim_end(s: Seq<char>) -> Seq<char>
    decreases s.len(),
{
    if s.len() > 0 && is_bracket(s.last()) {
        trim_end(s.drop_last())
    } else {
        s
    }
}

/// `s` without the angle brackets that enclose it.
pub open spec fn trim_brackets(s: Seq<char>) -> Seq<char> {
    trim_end(trim_start(s))
}

/// `s` without the angle brackets that enclose it.
pub fn strip_brackets(s: &str) -> (r: String)
    ensures
        r@ == trim_brackets(s@),
{
    let hay = chars_of(s);
    let mut start: usize = 0;
    assert(hay@.skip(0) =~= hay@);
    while start < hay.len() && (hay[start] == '<' || hay[start] == '>')
        invariant
            start <= hay.len(),
            trim_start(hay@) == trim_start(hay@.skip(start as int)),
        decreases hay.len() - start,
    {
        assert(hay@.skip(start as int).drop_first() =~= hay@.skip(start + 1));
        start += 1;
    }
    assert(trim_start(hay@) == hay@.skip(start as int));
    let mut end: usize = hay.len();
    while end > start && (hay[end - 1] == '<' || hay[end - 1] == '>')
        invariant
            start <= end <= hay.len(),
            trim_brackets(hay@) == trim_end(hay@.subrange(start as int, end as int)),
        decreases end - start,
    {
        assert(hay@.subrange(start as int, end as int).drop_last() =~= hay@.subrange(
            start as int,
            end - 1,
        ));
        end -= 1;
    }
    s.substring_char(start, end).to_owned()
}

/// `s` with every occurrence of `pattern` replaced by `with`, the occurrences taken from
/// left to right and without overlap. An empty `pattern` replaces nothing.
pub open spec fn replace_all(s: Seq<char>, pattern: Seq<char>, with: Seq<char>) -> Seq<char>
    decreases s.len(),
{
    match find_from(s, pattern, 0) {
        Some(at) => if pattern.len() > 0 && 0 <= at && at + pattern.len() <= s.len() {
            s.take(at) + with + replace_all(s.skip(at + pattern.len()), pattern, with)
        } else {
            s
        },
        None => s,
    }
}

/// `s` with every occurrence of `pattern` replaced by `with`.
pub fn replace(s: &str, pattern: &str, with: &str) -> (r: String)
    ensures
        r@ == replace_all(s@, pattern@, with@),
{
    let hay = chars_of(s);
    let needle = chars_of(pattern);
    if needle.len() == 0 {
        return s.to_owned();
    }
    let mut out = String::new();
    let mut done: usize = 0;
    assert(s@.skip(0) =~= s@);
    loop
        invariant
            done <= hay.len(),
            hay@ == s@,
            needle@ == pattern@,
            needle.len() > 0,
            replace_all(s@, pattern@, with@) == out@ + replace_all(
                s@.skip(done as int),
                pattern@,
                with@,
            ),
        decreases hay.len() - done,
    {
        let ghost rest = s@.skip(done as int);
        let ghost before = out@;
        proof {
            find_from_skip(s@, pattern@, done as int, 0);
            find_from_is_first(s@, pattern@, done as int);
        }
        match find(&hay, &needle, done) {
            Some(at) => {
                out.append(s.substring_char(done, at));
                out.append(with);
                proof {
                    assert(rest.take(at - done) =~= s@.subrange(done as int, at as int));
                    assert(rest.skip(at - done + pattern@.len()) =~= s@.skip(
                        at + pattern@.len(),
                    ));
                    assert(out@ + replace_all(s@.skip(at + pattern@.len()), pattern@, with@)
                        =~= before + replace_all(rest, pattern@, with@));
                }
                done = at + needle.len();
            },
            None => {
                out.append(s.substring_char(done, hay.len()));
                assert(rest =~= s@.subrange(done as int, hay.len() as int));
                return out;
            },
        }
    }
}

/// The decimal digit that writes `d`.
pub open spec fn digit_char(d: int) -> char {
    seq!['0', '1', '2', '3', '4', '5', '6', '7', '8', '9'][d]
}

/// `n` written in decimal, without leading zeros.
pub open spec fn decimal(n: nat) -> Seq<char>
    decreases n,
{
    if n < 10 {
        seq![digit_char(n as int)]
    } else {
        decimal(n / 10).push(digit_char((n % 10) as int))
    }
}

/// The one-character text that writes the digit `d`.
fn digit_text(d: u64) -> (r: &'static str)
    requires
        d < 10,
    ensures
        r@ == seq![digit_char(d as int)],
{
    proof {
        reveal_strlit("0");
        reveal_strlit("1");
        reveal_strlit("2");
        reveal_strlit("3");
        reveal_strlit("4");
        reveal_strlit("5");
        reveal_strlit("6");
        reveal_strlit("7");
        reveal_strlit("8");
        reveal_strlit("9");
    }
    let r = if d == 0 {
        "0"
    } else if d == 1 {
        "1"
    } else if d == 2 {
        "2"
    } else if d == 3 {
        "3"
    } else if d == 4 {
        "4"
    } else if d == 5 {
        "5"
    } else if d == 6 {
        "6"
    } else if d == 7 {
        "7"
    } else if d == 8 {
        "8"
    } else {
        "9"
    };
    assert(r@ =~= seq![digit_char(d as int)]);
    r
}

/// `n` written in decimal.
pub fn decimal_text(n: u64) -> (r: String)
    ensures
        r@ == decimal(n as nat),
    decreases n,
{
    if n < 10 {
        digit_text(n).to_owned()
    } else {
        let mut out = decimal_text(n / 10);
        out.append(digit_text(n % 10));
        assert(out@ =~= decimal((n / 10) as nat).push(digit_char((n % 10) as int)));
        out
    }
}

/// The value of the decimal digit `c`.
pub open spec fn digit_value(c: char) -> Option<int> {
    if '0' <= c && c <= '9' {
        Some(c as int - '0' as int)
    } else {
        None
    }
}

/// `s` holds decimal digits only.
pub open spec fn all_digits(s: Seq<char>) -> bool {
    forall|i: int| 0 <= i < s.len() ==> (#[trigger] digit_value(s[i])) is Some
}

/// The number that the digits of `s` write; leading zeros count for nothing.
pub open spec fn digits_value(s: Seq<char>) -> nat
    decreases s.len(),
{
    if s.len() == 0 {
        0
    } else {
        match digit_value(s.last()) {
            Some(d) => (digits_value(s.drop_last()) * 10 + d) as nat,
            None => 0,
        }
    }
}

/// `s` without one leading plus sign.
pub open spec fn unsigned_part(s: Seq<char>) -> Seq<char> {
    if s.len() > 0 && s[0] == '+' {
        s.drop_first()
    } else {
        s
    }
}

/// The number that `s` writes in decimal: an optional plus sign, then at least one digit
/// and nothing else, the value no greater than `u64::MAX`.
pub open spec fn parse_decimal(s: Seq<char>) -> Option<u64> {
    let digits = unsigned_part(s);
    if digits.len() > 0 && all_digits(digits) && digits_value(digits) <= u64::MAX {
        Some(digits_value(digits) as u64)
    } else {
        None
    }
}

/// With more digits the number does not get smaller.
pub proof fn digits_value_grows(s: Seq<char>, n: int)
    requires
        0 <= n <= s.len(),
        all_digits(s),
    ensures
        digits_value(s.take(n)) <= digits_value(s),
    decreases s.len() - n,
{
    if n == s.len() {
        assert(s.take(n) =~= s);
    } else {
        digits_value_grows(s, n + 1);
        let longer = s.take(n + 1);
        assert(longer.drop_last() =~= s.take(n));
        assert(digit_value(s[n]) is Some);
        assert(longer.last() == s[n]);
    }
}

/// The number that `s` writes in decimal, if it writes one that fits.
pub fn parse_u64(s: &str) -> (r: Option<u64>)
    ensures
        r == parse_decimal(s@),
{
    let text = chars_of(s);
    let start: usize = if text.len() > 0 && text[0] == '+' {
        1
    } else {
        0
    };
    let ghost digits = unsigned_part(s@);
    assert(digits =~= s@.skip(start as int));
    if start == text.len() {
        return None;
    }
    let mut value: u64 = 0;
    let mut k: usize = start;
    assert(digits.take(0) =~= Seq::<char>::empty());
    while k < text.len()
        invariant
            start <= k <= text.len(),
            text@ == s@,
            digits == s@.skip(start as int),
            digits == unsigned_part(s@),
            digits.len() > 0,
            all_digits(digits.take(k - start)),
            value == digits_value(digits.take(k - start)),
        decreases text.len() - k,
    {
        let c = text[k];
        let ghost seen = digits.take(k - start);
        let ghost next = digits.take(k - start + 1);
        assert(next.drop_last() =~= seen);
        assert(digits[k - start] == c);
        assert(next.last() == c);
        if c < '0' || c > '9' {
            assert(digit_value(digits[k - start]) is None);
            return None;
        }
        let d: u64 = (c as u64) - ('0' as u64);
        assert(digit_value(c) == Some(d as int));
        if value > (u64::MAX - d) / 10 {
            proof {
                assert(digits_value(next) > u64::MAX);
                if all_digits(digits) {
                    digits_value_grows(digits, k - start + 1);
                }
            }
            return None;
        }
        value = value * 10 + d;
        assert(all_digits(next)) by {
            assert forall|i: int| 0 <= i < next.len() implies (#[trigger] digit_value(
                next[i],
            )) is Some by {
                if i < seen.len() {
                    assert(next[i] == seen[i]);
                }
            }
        }
        k += 1;
    }
    assert(digits.take(k - start) =~= digits);
    Some(value)
}

} // verus!
