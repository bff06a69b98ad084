//! Small verified helpers for building and inspecting strings.

use vstd::prelude::*;

verus! {

/// Relies on std's `String::push`: appends the given `char` to the end of the string.
pub assume_specification[ String::push ](s: &mut String, ch: char)
    ensures
        final(s)@ == old(s)@.push(ch),
;

/// The decimal digit character for a value below ten.
pub open spec fn dec_digit(d: nat) -> char
    recommends
        d < 10,
{
    if d == 0 {
        '0'
    } else if d == 1 {
        '1'
    } else if d == 2 {
        '2'
    } else if d == 3 {
        '3'
    } else if d == 4 {
        '4'
    } else if d == 5 {
        '5'
    } else if d == 6 {
        '6'
    } else if d == 7 {
        '7'
    } else if d == 8 {
        '8'
    } else {
        '9'
    }
}

/// The decimal representation of `n`, most significant digit first, with no
/// leading zero except for `n == 0` itself.
pub open spec fn dec_rep(n: nat) -> Seq<char>
    decreases n,
{
    if n < 10 {
        seq![dec_digit(n)]
    } else {
        dec_rep(n / 10).push(dec_digit(n % 10))
    }
}

fn dec_digit_char(d: u64) -> (c: char)
    requires
        d < 10,
    ensures
        c == dec_digit(d as nat),
{
    match d {
        0 => '0',
        1 => '1',
        2 => '2',
        3 => '3',
        4 => '4',
        5 => '5',
        6 => '6',
        7 => '7',
        8 => '8',
        _ => '9',
    }
}

/// Appends the decimal representation of `n` to `s`.
pub fn push_u64_dec(s: &mut String, n: u64)
    ensures
        final(s)@ == old(s)@ + dec_rep(n as nat),
    decreases n,
{
    if n < 10 {
        s.push(dec_digit_char(n));
        assert(final(s)@ =~= old(s)@ + dec_rep(n as nat));
    } else {
        push_u64_dec(s, n / 10);
        s.push(dec_digit_char(n % 10));
        assert(final(s)@ =~= old(s)@ + dec_rep(n as nat));
    }
}

/// True when the two string slices hold the same characters.
pub fn str_equal(a: &str, b: &str) -> (r: bool)
    ensures
        r == (a@ == b@),
{
    let alen = a.unicode_len();
    let blen = b.unicode_len();
    if alen != blen {
        assert(a@ != b@) by {
            assert(a@.len() != b@.len());
        }
        return false;
    }
    let mut i: usize = 0;
    while i < alen
        invariant
            alen == a@.len(),
            alen == b@.len(),
            i <= alen,
            forall|j: int| 0 <= j < i ==> a@[j] == b@[j],
        decreases alen - i,
    {
        if a.get_char(i) != b.get_char(i) {
            return false;
        }
        i += 1;
    }
    proof {
        assert(a@ =~= b@);
    }
    true
}

/// The position of the last occurrence of `c` in `s`, if any.
pub fn find_last_char(s: &str, c: char) -> (r: Option<usize>)
    ensures
        match r {
            Some(i) => i < s@.len() && s@[i as int] == c && (forall|j: int|
                i < j < s@.len() ==> s@[j] != c),
            None => forall|j: int| 0 <= j < s@.len() ==> s@[j] != c,
        },
{
    let len = s.unicode_len();
    let mut i: usize = len;
    while i > 0
        invariant
            len == s@.len(),
            i <= len,
            forall|j: int| i <= j < len ==> s@[j] != c,
        decreases i,
    {
        i -= 1;
        if s.get_char(i) == c {
            return Some(i);
        }
    }
    None
}

/// True for an ASCII decimal digit.
pub open spec fn is_digit_char(c: char) -> bool {
    '0' <= c <= '9'
}

/// The numeric value of a digit character; zero for anything else.
pub open spec fn digit_val(c: char) -> nat {
    if is_digit_char(c) {
        (c as u32 - '0' as u32) as nat
    } else {
        0
    }
}

/// The number a digit string denotes, reading left to right.
pub open spec fn dec_value(s: Seq<char>) -> nat
    decreases s.len(),
{
    if s.len() == 0 {
        0
    } else {
        dec_value(s.drop_last()) * 10 + digit_val(s.last())
    }
}

/// What parsing `s` as a decimal `u32` yields: defined exactly on
/// non-empty all-digit strings whose value fits.
pub open spec fn spec_parse_u32(s: Seq<char>) -> Option<u32> {
    if s.len() > 0 && (forall|i: int| 0 <= i < s.len() ==> is_digit_char(#[trigger] s[i]))
        && dec_value(s) <= u32::MAX {
        Some(dec_value(s) as u32)
    } else {
        None
    }
}

proof fn lemma_dec_value_prefix(s: Seq<char>, i: int)
    requires
        0 <= i <= s.len(),
    ensures
        dec_value(s) >= dec_value(s.take(i)),
    decreases s.len() - i,
{
    if i < s.len() {
        lemma_dec_value_prefix(s, i + 1);
        assert(s.take(i + 1).drop_last() =~= s.take(i));
        assert(s.take(i + 1).last() == s[i]);
        assert(dec_value(s.take(i + 1)) == dec_value(s.take(i)) * 10 + digit_val(s[i]));
    } else {
        assert(s.take(i) =~= s);
    }
}

/// Parses a decimal `u32`; fails on an empty string, a non-digit, or a
/// value above `u32::MAX`.
pub fn parse_u32(s: &str) -> (r: Option<u32>)
    ensures
        r == spec_parse_u32(s@),
{
    let len = s.unicode_len();
    if len == 0 {
        return None;
    }
    let mut acc: u64 = 0;
    let mut i: usize = 0;
    while i < len
        invariant
            len == s@.len(),
            0 < len,
            i <= len,
            forall|j: int| 0 <= j < i ==> is_digit_char(#[trigger] s@[j]),
            acc == dec_value(s@.take(i as int)),
            acc <= u32::MAX,
        decreases len - i,
    {
        let c = s.get_char(i);
        if c < '0' || c > '9' {
            return None;
        }
        let d: u64 = (c as u32 - '0' as u32) as u64;
        proof {
            assert(s@.take(i as int + 1).drop_last() =~= s@.take(i as int));
            assert(s@.take(i as int + 1).last() == s@[i as int]);
        }
        acc = acc * 10 + d;
        i += 1;
        if acc > u32::MAX as u64 {
            proof {
                lemma_dec_value_prefix(s@, i as int);
            }
            return None;
        }
    }
    proof {
        assert(s@.take(len as int) =~= s@);
    }
    Some(acc as u32)
}

/// True when position `i` holds the last `.` of `f`, not counting one at
/// the very start.
pub open spec fn is_last_dot(f: Seq<char>, i: int) -> bool {
    1 <= i < f.len() && f[i] == '.' && (forall|j: int| i < j < f.len() ==> f[j] != '.')
}

/// The file stem of a path: the file name up to its last `.`, where a
/// leading `.` does not begin an extension.
pub open spec fn file_stem(p: Seq<char>) -> Seq<char> {
    let f = after_last_slash(p);
    if exists|i: int| is_last_dot(f, i) {
        f.take(choose|i: int| is_last_dot(f, i))
    } else {
        f
    }
}

/// Extracts the file stem of a path.
pub fn file_stem_of(p: &str) -> (r: &str)
    ensures
        r@ == file_stem(p@),
{
    let len = p.unicode_len();
    let f = match find_last_char(p, '/') {
        Some(i) => {
            proof {
                lemma_after_last_slash_skip(p@, i as int);
            }
            p.substring_char(i + 1, len)
        },
        None => {
            proof {
                lemma_after_last_slash_none(p@);
            }
            p
        },
    };
    assert(f@ == after_last_slash(p@));
    let flen = f.unicode_len();
    match find_last_char(f, '.') {
        Some(i) if i >= 1 => {
            proof {
                assert(is_last_dot(f@, i as int));
                let w = choose|j: int| is_last_dot(f@, j);
                assert(f@[w] == '.');
                assert(w == i as int);
            }
            let r = f.substring_char(0, i);
            proof {
                assert(r@ =~= f@.take(i as int));
            }
            r
        },
        Some(_) => {
            proof {
                assert(forall|j: int| 1 <= j < f@.len() ==> f@[j] != '.');
                assert(forall|j: int| !is_last_dot(f@, j));
            }
            f
        },
        None => {
            proof {
                assert(forall|j: int| !is_last_dot(f@, j));
            }
            f
        },
    }
}

/// The number of occurrences of `c` in `s`.
pub open spec fn count_char(s: Seq<char>, c: char) -> nat
    decreases s.len(),
{
    if s.len() == 0 {
        0
    } else {
        (if s[0] == c {
            1nat
        } else {
            0nat
        }) + count_char(s.skip(1), c)
    }
}

proof fn lemma_count_char_snoc(s: Seq<char>, x: char, c: char)
    ensures
        count_char(s.push(x), c) == count_char(s, c) + (if x == c {
            1nat
        } else {
            0nat
        }),
    decreases s.len(),
{
    if s.len() == 0 {
        assert(s.push(x).skip(1) =~= Seq::<char>::empty());
        assert(s.push(x)[0] == x);
        assert(count_char(s.push(x).skip(1), c) == 0);
        assert(count_char(s, c) == 0);
    } else {
        assert(s.push(x).skip(1) =~= s.skip(1).push(x));
        lemma_count_char_snoc(s.skip(1), x, c);
        assert(s.push(x)[0] == s[0]);
        assert(count_char(s.push(x), c) == (if s[0] == c {
            1nat
        } else {
            0nat
        }) + count_char(s.skip(1).push(x), c));
    }
}

/// Counts how many times `c` occurs in `s`.
pub fn count_char_occurrences(s: &str, c: char) -> (r: usize)
    requires
        s@.len() <= usize::MAX,
    ensures
        r == count_char(s@, c),
{
    let len = s.unicode_len();
    let mut i: usize = 0;
    let mut n: usize = 0;
    while i < len
        invariant
            len == s@.len(),
            i <= len,
            n == count_char(s@.take(i as int), c),
            n <= i,
        decreases len - i,
    {
        proof {
            lemma_count_char_snoc(s@.take(i as int), s@[i as int], c);
            assert(s@.take(i as int + 1) =~= s@.take(i as int).push(s@[i as int]));
        }
        if s.get_char(i) == c {
            n += 1;
        }
        i += 1;
    }
    proof {
        assert(s@.take(len as int) =~= s@);
    }
    n
}

pub proof fn lemma_count_char_zero(s: Seq<char>, c: char)
    requires
        forall|i: int| 0 <= i < s.len() ==> s[i] != c,
    ensures
        count_char(s, c) == 0,
    decreases s.len(),
{
    if s.len() > 0 {
        assert(forall|i: int| 0 <= i < s.skip(1).len() ==> #[trigger] s.skip(1)[i] == s[i + 1]);
        lemma_count_char_zero(s.skip(1), c);
    }
}

pub proof fn lemma_count_char_one(s: Seq<char>, c: char, u: int)
    requires
        0 <= u < s.len(),
        s[u] == c,
        forall|i: int| 0 <= i < s.len() && i != u ==> s[i] != c,
    ensures
        count_char(s, c) == 1,
    decreases s.len(),
{
    if u == 0 {
        assert(forall|i: int| 0 <= i < s.skip(1).len() ==> #[trigger] s.skip(1)[i] == s[i + 1]);
        lemma_count_char_zero(s.skip(1), c);
    } else {
        assert(forall|i: int| 0 <= i < s.skip(1).len() ==> #[trigger] s.skip(1)[i] == s[i + 1]);
        lemma_count_char_one(s.skip(1), c, u - 1);
    }
}

/// With exactly one occurrence of `c`, any two positions holding `c` agree.
pub proof fn lemma_count_char_unique(s: Seq<char>, c: char, i: int, j: int)
    requires
        count_char(s, c) == 1,
        0 <= i < s.len() && s[i] == c,
        0 <= j < s.len() && s[j] == c,
    ensures
        i == j,
    decreases s.len(),
{
    if i != j {
        lemma_count_char_pair(s, c, if i < j {
            i
        } else {
            j
        }, if i < j {
            j
        } else {
            i
        });
    }
}

proof fn lemma_count_char_ge_one(s: Seq<char>, c: char, i: int)
    requires
        0 <= i < s.len(),
        s[i] == c,
    ensures
        count_char(s, c) >= 1,
    decreases s.len(),
{
    if i > 0 {
        assert(s.skip(1)[i - 1] == s[i]);
        lemma_count_char_ge_one(s.skip(1), c, i - 1);
    }
}

proof fn lemma_count_char_pair(s: Seq<char>, c: char, i: int, j: int)
    requires
        0 <= i < j < s.len(),
        s[i] == c,
        s[j] == c,
    ensures
        count_char(s, c) >= 2,
    decreases s.len(),
{
    if i == 0 {
        assert(s.skip(1)[j - 1] == s[j]);
        lemma_count_char_ge_one(s.skip(1), c, j - 1);
    } else {
        assert(s.skip(1)[i - 1] == s[i]);
        assert(s.skip(1)[j - 1] == s[j]);
        lemma_count_char_pair(s.skip(1), c, i - 1, j - 1);
        lemma_count_char_ge_one(s, c, i);
    }
}

/// The portion of `p` after its last `/`, or all of `p` when it has none.
pub open spec fn after_last_slash(p: Seq<char>) -> Seq<char>
    decreases p.len(),
{
    if p.len() == 0 {
        p
    } else if p.last() == '/' {
        Seq::<char>::empty()
    } else {
        after_last_slash(p.drop_last()).push(p.last())
    }
}

pub proof fn lemma_after_last_slash_none(p: Seq<char>)
    requires
        forall|i: int| 0 <= i < p.len() ==> p[i] != '/',
    ensures
        after_last_slash(p) == p,
    decreases p.len(),
{
    if p.len() > 0 {
        assert(forall|i: int|
            0 <= i < p.drop_last().len() ==> #[trigger] p.drop_last()[i] == p[i]);
        lemma_after_last_slash_none(p.drop_last());
        assert(p.drop_last().push(p.last()) =~= p);
    }
}

/// After appending a slash-free tail to anything ending in `/`, the
/// portion after the last slash is exactly that tail.
pub proof fn lemma_after_last_slash_concat(a: Seq<char>, b: Seq<char>)
    requires
        a.len() > 0,
        a.last() == '/',
        forall|i: int| 0 <= i < b.len() ==> b[i] != '/',
    ensures
        after_last_slash(a + b) == b,
    decreases b.len(),
{
    if b.len() == 0 {
        assert(a + b =~= a);
    } else {
        let b0 = b.drop_last();
        assert(forall|i: int| 0 <= i < b0.len() ==> #[trigger] b0[i] == b[i]);
        lemma_after_last_slash_concat(a, b0);
        assert((a + b).last() == b.last());
        assert((a + b).drop_last() =~= a + b0);
        assert(b0.push(b.last()) =~= b);
    }
}

pub proof fn lemma_after_last_slash_skip(p: Seq<char>, i: int)
    requires
        0 <= i < p.len(),
        p[i] == '/',
        forall|j: int| i < j < p.len() ==> p[j] != '/',
    ensures
        after_last_slash(p) == p.skip(i + 1),
{
    let a = p.take(i + 1);
    let b = p.skip(i + 1);
    assert(a + b =~= p);
    assert(a.last() == '/');
    assert(forall|j: int| 0 <= j < b.len() ==> #[trigger] b[j] == p[i + 1 + j]);
    lemma_after_last_slash_concat(a, b);
}

/// True when `s` ends with `suffix`.
pub open spec fn spec_ends_with(s: Seq<char>, suffix: Seq<char>) -> bool {
    s.len() >= suffix.len() && s.skip(s.len() - suffix.len()) == suffix
}

/// Tests whether `s` ends with `suffix`.
pub fn ends_with_str(s: &str, suffix: &str) -> (r: bool)
    ensures
        r == spec_ends_with(s@, suffix@),
{
    let slen = s.unicode_len();
    let xlen = suffix.unicode_len();
    if slen < xlen {
        return false;
    }
    let tail = s.substring_char(slen - xlen, slen);
    assert(tail@ =~= s@.skip(s@.len() - suffix@.len()));
    str_equal(tail, suffix)
}

} // verus!
