//! Text handling on `&str`: prefixes, trimming, searching and decimal
//! numerals, each proved against a definition over `Seq<char>`.

use vstd::prelude::*;
use vstd::string::*;

verus! {

/// `p` is the beginning of `s`.
pub open spec fn has_prefix(s: Seq<char>, p: Seq<char>) -> bool {
    p.len() <= s.len() && s.subrange(0, p.len() as int) == p
}

/// `s` with every leading repetition of the non-empty pattern `p` removed.
pub open spec fn strip_repeated(s: Seq<char>, p: Seq<char>) -> Seq<char>
    decreases s.len(),
{
    if p.len() > 0 && has_prefix(s, p) {
        strip_repeated(s.skip(p.len() as int), p)
    } else {
        s
    }
}

/// The white-space characters of Unicode.
pub open spec fn is_space(c: char) -> bool {
    let n = c as u32;
    ||| 0x09 <= n <= 0x0D
    ||| n == 0x20
    ||| n == 0x85
    ||| n == 0xA0
    ||| n == 0x1680
    ||| 0x2000 <= n <= 0x200A
    ||| n == 0x2028
    ||| n == 0x2029
    ||| n == 0x202F
    ||| n == 0x205F
    ||| n == 0x3000
}

/// `s` without its leading white space.
pub open spec fn trim_front(s: Seq<char>) -> Seq<char>
    decreases s.len(),
{
    if s.len() > 0 && is_space(s[0]) {
        trim_front(s.skip(1))
    } else {
        s
    }
}

/// `s` without its trailing white space.
pub open spec fn trim_back(s: Seq<char>) -> Seq<char>
    decreases s.len(),
{
    if s.len() > 0 && is_space(s[s.len() - 1]) {
        trim_back(s.take(s.len() - 1))
    } else {
        s
    }
}

/// `s` without white space at either end.
pub open spec fn trimmed(s: Seq<char>) -> Seq<char> {
    trim_back(trim_front(s))
}

/// Position of the first `c` in `s`, or `s.len()` where there is none.
pub open spec fn first_position(s: Seq<char>, c: char) -> int
    decreases s.len(),
{
    if s.len() == 0 {
        0
    } else if s[0] == c {
        0
    } else {
        1 + first_position(s.skip(1), c)
    }
}

/// `needle` occurs in `s` as a contiguous run.
pub open spec fn has_infix(s: Seq<char>, needle: Seq<char>) -> bool {
    exists|i: int|
        0 <= i && i + needle.len() <= s.len() && #[trigger] s.subrange(i, i + needle.len())
            == needle
}

/// `sub` occurs in `s` at position `at`.
pub open spec fn occurs_at(s: Seq<char>, sub: Seq<char>, at: int) -> bool {
    0 <= at && at + sub.len() <= s.len() && s.subrange(at, at + sub.len()) == sub
}

/// The decimal digit for `d`, for `d` below ten.
pub open spec fn digit_char(d: nat) -> char {
    if d == 0 {
        '0'
    } else if d == 1 {
        '1'
    } else if d == 2 {
        '2'
    } else if d == 3 {
        '3'
    } else if d == 4 {
        '4'
    } else if d == 5 {
        '5'
    } else if d == 6 {
        '6'
    } else if d == 7 {
        '7'
    } else if d == 8 {
        '8'
    } else {
        '9'
    }
}

/// The decimal numeral of `n`, without sign or leading zeros.
pub open spec fn decimal(n: nat) -> Seq<char>
    decreases n,
{
    if n < 10 {
        seq![digit_char(n)]
    } else {
        decimal(n / 10).push(digit_char(n % 10))
    }
}

/// `text` with every letter in lower case.
pub uninterp spec fn lowercased(text: Seq<char>) -> Seq<char>;

/// Trusted: `str::to_lowercase`.
#[verifier::external_body]
fn to_lowercase(text: &str) -> (r: String)
    ensures
        r@ == lowercased(text@),
{
    text.to_lowercase()
}

/// Puts every letter of `text` in lower case.
pub fn lowercase(text: &str) -> (r: String)
    ensures
        r@ == lowercased(text@),
{
    to_lowercase(text)
}

/// Whether the part of `s` from `at` on starts with `sub`.
pub fn matches_at(s: &str, sub: &str, at: usize) -> (r: bool)
    ensures
        r == occurs_at(s@, sub@, at as int),
{
    let n = s.unicode_len();
    let m = sub.unicode_len();
    if at > n || m > n - at {
        return false;
    }
    let mut i: usize = 0;
    while i < m
        invariant
            n == s@.len(),
            m == sub@.len(),
            at + m <= n,
            i <= m,
            forall|j: int| 0 <= j < i ==> s@[at + j] == sub@[j],
        decreases m - i,
    {
        if s.get_char(at + i) != sub.get_char(i) {
            proof {
                let w = s@.subrange(at as int, at + m);
                assert(w[i as int] == s@[at + i]);
            }
            return false;
        }
        i += 1;
    }
    assert(s@.subrange(at as int, at + m) =~= sub@);
    true
}

/// Whether `s` begins with `prefix`.
pub fn starts_with(s: &str, prefix: &str) -> (r: bool)
    ensures
        r == has_prefix(s@, prefix@),
{
    matches_at(s, prefix, 0)
}

/// Whether two strings hold the same characters.
pub fn same_text(a: &str, b: &str) -> (r: bool)
    ensures
        r == (a@ == b@),
{
    let n = a.unicode_len();
    let m = b.unicode_len();
    if n != m {
        return false;
    }
    let r = matches_at(a, b, 0);
    proof {
        assert(a@.subrange(0, n as int) =~= a@);
    }
    r
}

/// The part of `s` from position `from` on.
pub fn tail_from(s: &str, from: usize) -> (r: &str)
    requires
        from <= s@.len(),
    ensures
        r@ == s@.skip(from as int),
{
    let n = s.unicode_len();
    let r = s.substring_char(from, n);
    assert(s@.subrange(from as int, n as int) =~= s@.skip(from as int));
    r
}

/// Removes every leading repetition of `pattern` from `s`.
pub fn trim_start_matches<'a>(s: &'a str, pattern: &str) -> (r: &'a str)
    ensures
        r@ == strip_repeated(s@, pattern@),
{
    let n = s.unicode_len();
    let m = pattern.unicode_len();
    if m == 0 {
        return s;
    }
    let mut at: usize = 0;
    assert(s@.skip(0) =~= s@);
    while matches_at(s, pattern, at)
        invariant
            n == s@.len(),
            m == pattern@.len(),
            m > 0,
            at <= n,
            strip_repeated(s@, pattern@) == strip_repeated(s@.skip(at as int), pattern@),
        decreases n - at,
    {
        proof {
            let rest = s@.skip(at as int);
            assert(rest.subrange(0, m as int) =~= s@.subrange(at as int, at + m));
            assert(has_prefix(rest, pattern@));
            assert(rest.skip(m as int) =~= s@.skip(at + m));
        }
        at += m;
    }
    proof {
        let rest = s@.skip(at as int);
        if m <= rest.len() {
            assert(rest.subrange(0, m as int) =~= s@.subrange(at as int, at + m));
        }
        assert(!has_prefix(rest, pattern@));
    }
    tail_from(s, at)
}

/// Whether `c` is white space.
pub fn is_whitespace(c: char) -> (r: bool)
    ensures
        r == is_space(c),
{
    let n: u32 = c as u32;
    (0x09 <= n && n <= 0x0D) || n == 0x20 || n == 0x85 || n == 0xA0 || n == 0x1680 || (0x2000 <= n
        && n <= 0x200A) || n == 0x2028 || n == 0x2029 || n == 0x202F || n == 0x205F || n == 0x3000
}

proof fn lemma_trim_front_skips(s: Seq<char>, k: int)
    requires
        0 <= k <= s.len(),
        forall|j: int| 0 <= j < k ==> is_space(#[trigger] s[j]),
    ensures
        trim_front(s) == trim_front(s.skip(k)),
    decreases k,
{
    if k > 0 {
        assert(is_space(s[0]));
        let t = s.skip(1);
        assert forall|j: int| 0 <= j < k - 1 implies is_space(#[trigger] t[j]) by {
            assert(t[j] == s[j + 1]);
        }
        lemma_trim_front_skips(t, k - 1);
        assert(t.skip(k - 1) =~= s.skip(k));
    } else {
        assert(s.skip(0) =~= s);
    }
}

proof fn lemma_trim_back_takes(s: Seq<char>, k: int)
    requires
        0 <= k <= s.len(),
        forall|j: int| k <= j < s.len() ==> is_space(#[trigger] s[j]),
    ensures
        trim_back(s) == trim_back(s.take(k)),
    decreases s.len() - k,
{
    if k < s.len() {
        assert(is_space(s[s.len() - 1]));
        let t = s.take(s.len() - 1);
        assert forall|j: int| k <= j < t.len() implies is_space(#[trigger] t[j]) by {
            assert(t[j] == s[j]);
        }
        lemma_trim_back_takes(t, k);
        assert(t.take(k) =~= s.take(k));
    } else {
        assert(s.take(k) =~= s);
    }
}

/// Removes the white space at both ends of the part of `s` between `from`
/// and `to`.
pub fn trim_between<'a>(s: &'a str, from: usize, to: usize) -> (r: &'a str)
    requires
        from <= to <= s@.len(),
    ensures
        r@ == trimmed(s@.subrange(from as int, to as int)),
{
    let ghost part = s@.subrange(from as int, to as int);
    let mut a: usize = from;
    while a < to && is_whitespace(s.get_char(a))
        invariant
            from <= a <= to <= s@.len(),
            part == s@.subrange(from as int, to as int),
            forall|j: int| 0 <= j < a - from ==> is_space(#[trigger] part[j]),
        decreases to - a,
    {
        a += 1;
    }
    let ghost front = part.skip(a - from);
    proof {
        lemma_trim_front_skips(part, a - from);
        if a < to {
            assert(front[0] == s@[a as int]);
        }
        assert(trim_front(part) == front);
        assert(front =~= s@.subrange(a as int, to as int));
    }
    let mut b: usize = to;
    while b > a && is_whitespace(s.get_char(b - 1))
        invariant
            a <= b <= to <= s@.len(),
            front == s@.subrange(a as int, to as int),
            forall|j: int| b - a <= j < front.len() ==> is_space(#[trigger] front[j]),
        decreases b,
    {
        b -= 1;
    }
    proof {
        lemma_trim_back_takes(front, b - a);
        let kept = front.take(b - a);
        if b > a {
            assert(kept[kept.len() - 1] == s@[b - 1]);
        }
        assert(trim_back(kept) == kept);
        assert(kept =~= s@.subrange(a as int, b as int));
    }
    s.substring_char(a, b)
}

/// `first_position` is a position in `s` or its length, holds `c` where it
/// is a position, and no earlier position holds `c`.
pub proof fn lemma_first_position_bounds(s: Seq<char>, c: char)
    ensures
        0 <= first_position(s, c) <= s.len(),
        first_position(s, c) < s.len() ==> s[first_position(s, c)] == c,
        forall|j: int| 0 <= j < first_position(s, c) ==> s[j] != c,
    decreases s.len(),
{
    if s.len() > 0 && s[0] != c {
        let t = s.skip(1);
        lemma_first_position_bounds(t, c);
        assert forall|j: int| 0 <= j < first_position(s, c) implies s[j] != c by {
            if j > 0 {
                assert(t[j - 1] == s[j]);
            }
        }
        if first_position(s, c) < s.len() {
            assert(t[first_position(t, c)] == s[first_position(s, c)]);
        }
    }
}

proof fn lemma_first_position_is(s: Seq<char>, c: char, k: int)
    requires
        0 <= k <= s.len(),
        forall|j: int| 0 <= j < k ==> s[j] != c,
        k < s.len() ==> s[k] == c,
    ensures
        first_position(s, c) == k,
{
    lemma_first_position_bounds(s, c);
    let p = first_position(s, c);
    if p < k {
        assert(s[p] == c);
    } else if p > k {
        assert(s[k] == c);
    }
}

/// Position of the first `c` at or after `from`, or the length of `s`.
pub fn find_char_from(s: &str, c: char, from: usize) -> (r: usize)
    requires
        from <= s@.len(),
    ensures
        from <= r <= s@.len(),
        r == from + first_position(s@.skip(from as int), c),
{
    let n = s.unicode_len();
    let mut i: usize = from;
    while i < n && s.get_char(i) != c
        invariant
            n == s@.len(),
            from <= i <= n,
            forall|j: int| from <= j < i ==> s@[j] != c,
        decreases n - i,
    {
        i += 1;
    }
    proof {
        let rest = s@.skip(from as int);
        assert forall|j: int| 0 <= j < i - from implies rest[j] != c by {
            assert(rest[j] == s@[from + j]);
        }
        lemma_first_position_is(rest, c, i - from);
    }
    i
}

/// Whether `needle` occurs anywhere in `s`.
pub fn contains_text(s: &str, needle: &str) -> (r: bool)
    ensures
        r == has_infix(s@, needle@),
{
    let n = s.unicode_len();
    let m = needle.unicode_len();
    if m > n {
        return false;
    }
    let last = n - m;
    let mut i: usize = 0;
    loop
        invariant
            n == s@.len(),
            m == needle@.len(),
            last == n - m,
            i <= last,
            forall|j: int| 0 <= j < i ==> !occurs_at(s@, needle@, j),
        decreases last - i,
    {
        if matches_at(s, needle, i) {
            return true;
        }
        if i == last {
            proof {
                if has_infix(s@, needle@) {
                    let j = choose|j: int|
                        0 <= j && j + needle@.len() <= s@.len() && #[trigger] s@.subrange(
                            j,
                            j + needle@.len(),
                        ) == needle@;
                    assert(occurs_at(s@, needle@, j));
                }
            }
            return false;
        }
        i += 1;
    }
}

/// The numeral of one decimal digit.
pub fn digit_text(d: u64) -> (r: &'static str)
    requires
        d < 10,
    ensures
        r@ == seq![digit_char(d as nat)],
{
    proof {
        reveal_strlit("0");
        reveal_strlit("1");
        reveal_strlit("2");
        reveal_strlit("3");
        reveal_strlit("4");
        reveal_strlit("5");
        reveal_strlit("6");
        reveal_strlit("7");
        reveal_strlit("8");
        reveal_strlit("9");
    }
    let r = if d == 0 {
        "0"
    } else if d == 1 {
        "1"
    } else if d == 2 {
        "2"
    } else if d == 3 {
        "3"
    } else if d == 4 {
        "4"
    } else if d == 5 {
        "5"
    } else if d == 6 {
        "6"
    } else if d == 7 {
        "7"
    } else if d == 8 {
        "8"
    } else {
        "9"
    };
    assert(r@ =~= seq![digit_char(d as nat)]);
    r
}

/// The decimal numeral of `n`.
pub fn decimal_text(n: u64) -> (r: String)
    ensures
        r@ == decimal(n as nat),
    decreases n,
{
    if n < 10 {
        String::from_str(digit_text(n))
    } else {
        let mut r = decimal_text(n / 10);
        r.append(digit_text(n % 10));
        assert(r@ =~= decimal(n as nat));
        r
    }
}

/// `a` followed by `b`.
pub fn concat2(a: &str, b: &str) -> (r: String)
    ensures
        r@ == a@ + b@,
{
    let mut r = String::from_str(a);
    r.append(b);
    r
}

/// `a`, `b` and `c` in a row.
pub fn concat3(a: &str, b: &str, c: &str) -> (r: String)
    ensures
        r@ == a@ + b@ + c@,
{
    let mut r = String::from_str(a);
    r.append(b);
    r.append(c);
    r
}

} // verus!
