//! Byte-level codec for node identity tokens.
//!
//! A record is serialized as a sequence of length-prefixed character strings,
//! the result is run-length compressed, and the compressed bytes are written
//! two base-58 digits per byte.  Every stage has a proved inverse, so the
//! whole pipeline round-trips exactly.

use vstd::prelude::*;

verus! {

// ---------------------------------------------------------------------------
// Big-endian length and code-point fields
// ---------------------------------------------------------------------------
/// Four big-endian base-256 digits of `n` (which must be below 2^32).
pub open spec fn be32(n: nat) -> Seq<u8> {
    let q0 = n / 256;
    let q1 = q0 / 256;
    let q2 = q1 / 256;
    seq![(q2 % 256) as u8, (q1 % 256) as u8, (q0 % 256) as u8, (n % 256) as u8]
}

/// The number encoded by four big-endian base-256 digits.
pub open spec fn from_be32(b0: u8, b1: u8, b2: u8, b3: u8) -> nat {
    (((b0 * 256 + b1) * 256 + b2) * 256 + b3) as nat
}

pub proof fn lemma_be32_round_trip(n: nat)
    requires
        n < 0x1_0000_0000,
    ensures
        from_be32(be32(n)[0], be32(n)[1], be32(n)[2], be32(n)[3]) == n,
{
}

/// Three big-endian base-256 digits of `n` (which must be below 2^24).
pub open spec fn be24(n: nat) -> Seq<u8> {
    let q0 = n / 256;
    let q1 = q0 / 256;
    seq![(q1 % 256) as u8, (q0 % 256) as u8, (n % 256) as u8]
}

/// The number encoded by three big-endian base-256 digits.
pub open spec fn from_be24(b0: u8, b1: u8, b2: u8) -> nat {
    ((b0 * 256 + b1) * 256 + b2) as nat
}

pub proof fn lemma_be24_round_trip(n: nat)
    requires
        n < 0x100_0000,
    ensures
        from_be24(be24(n)[0], be24(n)[1], be24(n)[2]) == n,
{
}

// ---------------------------------------------------------------------------
// Character strings as self-delimiting byte fields
// ---------------------------------------------------------------------------
/// True when `v` is the code point of a Rust `char`.
pub open spec fn valid_code_point(v: nat) -> bool {
    v <= 0xD7FF || (0xE000 <= v <= 0x10FFFF)
}

/// The characters of `s`, three bytes of code point each.
pub open spec fn pack_chars(s: Seq<char>) -> Seq<u8>
    decreases s.len(),
{
    if s.len() == 0 {
        Seq::<u8>::empty()
    } else {
        be24((s[0] as u32) as nat) + pack_chars(s.skip(1))
    }
}

/// A character count followed by that many three-byte code points.
pub open spec fn pack_str(s: Seq<char>) -> Seq<u8> {
    be32(s.len()) + pack_chars(s)
}

/// A string field fits its four-byte length prefix.
pub open spec fn fits_len(s: Seq<char>) -> bool {
    s.len() < 0x1_0000_0000
}

/// Reads `count` three-byte code points from `b` starting at `pos`.
/// Returns the decoded characters, or `None` on truncation or a value
/// that is not a valid code point.
pub open spec fn unpack_chars(b: Seq<u8>, pos: int, count: nat) -> Option<Seq<char>>
    decreases count,
{
    if count == 0 {
        Some(Seq::<char>::empty())
    } else if pos + 3 > b.len() {
        None
    } else {
        let v = from_be24(b[pos], b[pos + 1], b[pos + 2]);
        if !valid_code_point(v) {
            None
        } else {
            match unpack_chars(b, pos + 3, (count - 1) as nat) {
                Some(rest) => Some(seq![(v as u32) as char] + rest),
                None => None,
            }
        }
    }
}

/// Reads one length-prefixed string field from `b` at `pos`.
/// Returns the characters and the position just past the field.
pub open spec fn unpack_str(b: Seq<u8>, pos: int) -> Option<(Seq<char>, int)> {
    if pos + 4 > b.len() {
        None
    } else {
        let n = from_be32(b[pos], b[pos + 1], b[pos + 2], b[pos + 3]);
        match unpack_chars(b, pos + 4, n) {
            Some(s) => Some((s, pos + 4 + 3 * n)),
            None => None,
        }
    }
}

proof fn lemma_unpack_chars_of_packed(full: Seq<u8>, pos: int, s: Seq<char>)
    requires
        0 <= pos,
        pos + 3 * s.len() <= full.len(),
        full.subrange(pos, pos + 3 * s.len()) == pack_chars(s),
    ensures
        unpack_chars(full, pos, s.len()) == Some(s),
    decreases s.len(),
{
    if s.len() == 0 {
    } else {
        let c: char = s[0];
        let v = (c as u32) as nat;
        assert(vstd::utf8::is_scalar(c as u32)) by {
            vstd::utf8::char_is_scalar(c);
        }
        assert(v < 0x100_0000);
        assert(pack_chars(s) == be24(v) + pack_chars(s.skip(1)));
        assert(full[pos] == pack_chars(s)[0]);
        assert(full[pos + 1] == pack_chars(s)[1]);
        assert(full[pos + 2] == pack_chars(s)[2]);
        lemma_be24_round_trip(v);
        assert(from_be24(full[pos], full[pos + 1], full[pos + 2]) == v);
        assert(valid_code_point(v));
        assert(((v as u32) as char) == c) by {
            vstd::utf8::char_u32_cast(c, v as u32);
        }
        assert(full.subrange(pos + 3, pos + 3 + 3 * s.skip(1).len()) =~= pack_chars(s.skip(1)))
            by {
            lemma_pack_chars_len(s);
            lemma_pack_chars_len(s.skip(1));
            assert forall|i: int| 0 <= i < 3 * s.skip(1).len() implies full.subrange(
                pos + 3,
                pos + 3 + 3 * s.skip(1).len(),
            )[i] == pack_chars(s.skip(1))[i] by {
                assert(full.subrange(pos, pos + 3 * s.len())[i + 3] == full[pos + 3 + i]);
                assert(pack_chars(s)[i + 3] == pack_chars(s.skip(1))[i]);
            }
        }
        lemma_unpack_chars_of_packed(full, pos + 3, s.skip(1));
        assert(seq![(v as u32) as char] + s.skip(1) =~= s);
    }
}

pub proof fn lemma_unpack_str_of_packed(full: Seq<u8>, pos: int, s: Seq<char>)
    requires
        0 <= pos,
        fits_len(s),
        pos + pack_str(s).len() <= full.len(),
        full.subrange(pos, pos + pack_str(s).len()) == pack_str(s),
    ensures
        unpack_str(full, pos) == Some((s, pos + pack_str(s).len())),
{
    assert(pack_chars_len(s) == 3 * s.len()) by {
        lemma_pack_chars_len(s);
    }
    assert(full[pos] == pack_str(s)[0]);
    assert(full[pos + 1] == pack_str(s)[1]);
    assert(full[pos + 2] == pack_str(s)[2]);
    assert(full[pos + 3] == pack_str(s)[3]);
    lemma_be32_round_trip(s.len());
    assert(from_be32(full[pos], full[pos + 1], full[pos + 2], full[pos + 3]) == s.len());
    assert(full.subrange(pos + 4, pos + 4 + 3 * s.len()) =~= pack_chars(s)) by {
        assert forall|i: int| 0 <= i < 3 * s.len() implies full.subrange(
            pos + 4,
            pos + 4 + 3 * s.len(),
        )[i] == pack_chars(s)[i] by {
            assert(full.subrange(pos, pos + pack_str(s).len())[i + 4] == full[pos + 4 + i]);
            assert(pack_str(s)[i + 4] == pack_chars(s)[i]);
        }
    }
    lemma_unpack_chars_of_packed(full, pos + 4, s);
}

/// The packed characters take three bytes each.
pub open spec fn pack_chars_len(s: Seq<char>) -> int {
    pack_chars(s).len() as int
}

pub proof fn lemma_pack_chars_len(s: Seq<char>)
    ensures
        pack_chars(s).len() == 3 * s.len(),
    decreases s.len(),
{
    if s.len() == 0 {
    } else {
        lemma_pack_chars_len(s.skip(1));
    }
}

// ---------------------------------------------------------------------------
// Run-length compression
// ---------------------------------------------------------------------------
/// The length of the longest prefix of `s` whose bytes all equal `s[0]`.
pub open spec fn run_len(s: Seq<u8>) -> nat
    decreases s.len(),
{
    if s.len() == 0 {
        0
    } else if s.len() == 1 || s[1] != s[0] {
        1
    } else {
        (1 + run_len(s.skip(1))) as nat
    }
}

/// The length of one emitted run: a full run, capped at 255.
pub open spec fn capped_run(s: Seq<u8>) -> nat {
    if run_len(s) > 255 {
        255
    } else {
        run_len(s)
    }
}

pub proof fn lemma_run_len_prefix(s: Seq<u8>)
    ensures
        run_len(s) <= s.len(),
        forall|i: int| 0 <= i < run_len(s) ==> #[trigger] s[i] == s[0],
    decreases s.len(),
{
    if s.len() <= 1 || s[1] != s[0] {
    } else {
        lemma_run_len_prefix(s.skip(1));
        assert(forall|i: int| 1 <= i < run_len(s) ==> #[trigger] s[i] == s.skip(1)[i - 1]);
    }
}

pub proof fn lemma_run_len_at_least(s: Seq<u8>, m: nat)
    requires
        m <= s.len(),
        forall|i: int| 0 <= i < m ==> #[trigger] s[i] == s[0],
    ensures
        run_len(s) >= m,
    decreases m,
{
    if m <= 1 {
    } else {
        assert(s[1] == s[0]);
        assert(forall|i: int| 0 <= i < m - 1 ==> #[trigger] s.skip(1)[i] == s[i + 1]);
        lemma_run_len_at_least(s.skip(1), (m - 1) as nat);
    }
}

pub proof fn lemma_run_len_exact(s: Seq<u8>, m: nat)
    requires
        m <= s.len(),
        forall|i: int| 0 <= i < m ==> #[trigger] s[i] == s[0],
        m == s.len() || s[m as int] != s[0],
    ensures
        run_len(s) == m,
    decreases m,
{
    lemma_run_len_at_least(s, m);
    lemma_run_len_prefix(s);
    if run_len(s) > m {
        assert(s[m as int] == s[0]);
    }
}

/// Run-length encoding of `s`: pairs of a count in 1..=255 and a byte.
pub open spec fn rle(s: Seq<u8>) -> Seq<u8>
    decreases s.len(),
    via rle_decreases
{
    if s.len() == 0 {
        Seq::<u8>::empty()
    } else {
        let n = capped_run(s);
        seq![n as u8, s[0]] + rle(s.skip(n as int))
    }
}

#[via_fn]
proof fn rle_decreases(s: Seq<u8>) {
    if s.len() != 0 {
        lemma_run_len_prefix(s);
    }
}

/// Inverse of [`rle`]: `None` when the input is not a whole number of
/// pairs or a count byte is zero.
pub open spec fn unrle(s: Seq<u8>) -> Option<Seq<u8>>
    decreases s.len(),
{
    if s.len() == 0 {
        Some(Seq::<u8>::empty())
    } else if s.len() == 1 || s[0] == 0 {
        None
    } else {
        match unrle(s.skip(2)) {
            Some(t) => Some(Seq::new(s[0] as nat, |i: int| s[1]) + t),
            None => None,
        }
    }
}

pub proof fn lemma_rle_round_trip(s: Seq<u8>)
    ensures
        unrle(rle(s)) == Some(s),
    decreases s.len(),
{
    if s.len() == 0 {
    } else {
        let n = capped_run(s);
        lemma_run_len_prefix(s);
        assert(1 <= n <= s.len());
        let rest = s.skip(n as int);
        lemma_rle_round_trip(rest);
        let enc = rle(s);
        assert(enc == seq![n as u8, s[0]] + rle(rest));
        assert(enc.len() >= 2);
        assert(enc[0] == n as u8 && enc[1] == s[0]);
        assert(enc[0] != 0);
        assert(enc.skip(2) =~= rle(rest));
        assert(unrle(enc.skip(2)) == Some(rest));
        assert(Seq::new(enc[0] as nat, |i: int| enc[1]) =~= s.take(n as int));
        assert(s.take(n as int) + rest =~= s);
    }
}

// ---------------------------------------------------------------------------
// Base-58 digit pairs
// ---------------------------------------------------------------------------
/// The base-58 digit characters, in order: the usual alphabet that leaves
/// out `0`, `O`, `I` and `l`.
pub open spec fn b58_char(d: nat) -> char {
    if d == 0 {
        '1'
    } else if d == 1 {
        '2'
    } else if d == 2 {
        '3'
    } else if d == 3 {
        '4'
    } else if d == 4 {
        '5'
    } else if d == 5 {
        '6'
    } else if d == 6 {
        '7'
    } else if d == 7 {
        '8'
    } else if d == 8 {
        '9'
    } else if d == 9 {
        'A'
    } else if d == 10 {
        'B'
    } else if d == 11 {
        'C'
    } else if d == 12 {
        'D'
    } else if d == 13 {
        'E'
    } else if d == 14 {
        'F'
    } else if d == 15 {
        'G'
    } else if d == 16 {
        'H'
    } else if d == 17 {
        'J'
    } else if d == 18 {
        'K'
    } else if d == 19 {
        'L'
    } else if d == 20 {
        'M'
    } else if d == 21 {
        'N'
    } else if d == 22 {
        'P'
    } else if d == 23 {
        'Q'
    } else if d == 24 {
        'R'
    } else if d == 25 {
        'S'
    } else if d == 26 {
        'T'
    } else if d == 27 {
        'U'
    } else if d == 28 {
        'V'
    } else if d == 29 {
        'W'
    } else if d == 30 {
        'X'
    } else if d == 31 {
        'Y'
    } else if d == 32 {
        'Z'
    } else if d == 33 {
        'a'
    } else if d == 34 {
        'b'
    } else if d == 35 {
        'c'
    } else if d == 36 {
        'd'
    } else if d == 37 {
        'e'
    } else if d == 38 {
        'f'
    } else if d == 39 {
        'g'
    } else if d == 40 {
        'h'
    } else if d == 41 {
        'i'
    } else if d == 42 {
        'j'
    } else if d == 43 {
        'k'
    } else if d == 44 {
        'm'
    } else if d == 45 {
        'n'
    } else if d == 46 {
        'o'
    } else if d == 47 {
        'p'
    } else if d == 48 {
        'q'
    } else if d == 49 {
        'r'
    } else if d == 50 {
        's'
    } else if d == 51 {
        't'
    } else if d == 52 {
        'u'
    } else if d == 53 {
        'v'
    } else if d == 54 {
        'w'
    } else if d == 55 {
        'x'
    } else if d == 56 {
        'y'
    } else {
        'z'
    }
}

/// The index of `c` in the base-58 alphabet, or `None` when `c` is not a
/// base-58 digit.
pub open spec fn b58_index(c: char) -> Option<nat> {
    if c == '1' {
        Some(0 as nat)
    } else if c == '2' {
        Some(1 as nat)
    } else if c == '3' {
        Some(2 as nat)
    } else if c == '4' {
        Some(3 as nat)
    } else if c == '5' {
        Some(4 as nat)
    } else if c == '6' {
        Some(5 as nat)
    } else if c == '7' {
        Some(6 as nat)
    } else if c == '8' {
        Some(7 as nat)
    } else if c == '9' {
        Some(8 as nat)
    } else if c == 'A' {
        Some(9 as nat)
    } else if c == 'B' {
        Some(10 as nat)
    } else if c == 'C' {
        Some(11 as nat)
    } else if c == 'D' {
        Some(12 as nat)
    } else if c == 'E' {
        Some(13 as nat)
    } else if c == 'F' {
        Some(14 as nat)
    } else if c == 'G' {
        Some(15 as nat)
    } else if c == 'H' {
        Some(16 as nat)
    } else if c == 'J' {
        Some(17 as nat)
    } else if c == 'K' {
        Some(18 as nat)
    } else if c == 'L' {
        Some(19 as nat)
    } else if c == 'M' {
        Some(20 as nat)
    } else if c == 'N' {
        Some(21 as nat)
    } else if c == 'P' {
        Some(22 as nat)
    } else if c == 'Q' {
        Some(23 as nat)
    } else if c == 'R' {
        Some(24 as nat)
    } else if c == 'S' {
        Some(25 as nat)
    } else if c == 'T' {
        Some(26 as nat)
    } else if c == 'U' {
        Some(27 as nat)
    } else if c == 'V' {
        Some(28 as nat)
    } else if c == 'W' {
        Some(29 as nat)
    } else if c == 'X' {
        Some(30 as nat)
    } else if c == 'Y' {
        Some(31 as nat)
    } else if c == 'Z' {
        Some(32 as nat)
    } else if c == 'a' {
        Some(33 as nat)
    } else if c == 'b' {
        Some(34 as nat)
    } else if c == 'c' {
        Some(35 as nat)
    } else if c == 'd' {
        Some(36 as nat)
    } else if c == 'e' {
        Some(37 as nat)
    } else if c == 'f' {
        Some(38 as nat)
    } else if c == 'g' {
        Some(39 as nat)
    } else if c == 'h' {
        Some(40 as nat)
    } else if c == 'i' {
        Some(41 as nat)
    } else if c == 'j' {
        Some(42 as nat)
    } else if c == 'k' {
        Some(43 as nat)
    } else if c == 'm' {
        Some(44 as nat)
    } else if c == 'n' {
        Some(45 as nat)
    } else if c == 'o' {
        Some(46 as nat)
    } else if c == 'p' {
        Some(47 as nat)
    } else if c == 'q' {
        Some(48 as nat)
    } else if c == 'r' {
        Some(49 as nat)
    } else if c == 's' {
        Some(50 as nat)
    } else if c == 't' {
        Some(51 as nat)
    } else if c == 'u' {
        Some(52 as nat)
    } else if c == 'v' {
        Some(53 as nat)
    } else if c == 'w' {
        Some(54 as nat)
    } else if c == 'x' {
        Some(55 as nat)
    } else if c == 'y' {
        Some(56 as nat)
    } else if c == 'z' {
        Some(57 as nat)
    } else {
        None
    }
}

pub proof fn lemma_b58_char_index(d: nat)
    requires
        d < 58,
    ensures
        b58_index(b58_char(d)) == Some(d),
{
}

/// Two base-58 digits for each byte, high digit first.
pub open spec fn b58_pairs(b: Seq<u8>) -> Seq<char>
    decreases b.len(),
{
    if b.len() == 0 {
        Seq::<char>::empty()
    } else {
        seq![b58_char(b[0] as nat / 58), b58_char(b[0] as nat % 58)] + b58_pairs(b.skip(1))
    }
}

/// Inverse of [`b58_pairs`]: `None` on an odd length, a character outside
/// the alphabet, or a pair above 255.
pub open spec fn b58_unpairs(s: Seq<char>) -> Option<Seq<u8>>
    decreases s.len(),
{
    if s.len() == 0 {
        Some(Seq::<u8>::empty())
    } else if s.len() == 1 {
        None
    } else {
        match (b58_index(s[0]), b58_index(s[1])) {
            (Some(hi), Some(lo)) => {
                if hi * 58 + lo >= 256 {
                    None
                } else {
                    match b58_unpairs(s.skip(2)) {
                        Some(t) => Some(seq![(hi * 58 + lo) as u8] + t),
                        None => None,
                    }
                }
            },
            _ => None,
        }
    }
}

pub proof fn lemma_b58_round_trip(b: Seq<u8>)
    ensures
        b58_unpairs(b58_pairs(b)) == Some(b),
    decreases b.len(),
{
    if b.len() == 0 {
    } else {
        let v = b[0] as nat;
        let hi = v / 58;
        let lo = v % 58;
        assert(hi < 58 && lo < 58);
        lemma_b58_char_index(hi);
        lemma_b58_char_index(lo);
        let enc = b58_pairs(b);
        assert(enc == seq![b58_char(hi), b58_char(lo)] + b58_pairs(b.skip(1)));
        assert(enc[0] == b58_char(hi) && enc[1] == b58_char(lo));
        assert(hi * 58 + lo == v);
        assert(enc.skip(2) =~= b58_pairs(b.skip(1)));
        lemma_b58_round_trip(b.skip(1));
        assert(seq![(hi * 58 + lo) as u8] + b.skip(1) =~= b);
    }
}

/// Every character of a base-58 pair encoding is a base-58 digit; in
/// particular none of them is a path separator, an underscore or a dot.
pub proof fn lemma_b58_pairs_alphabet(b: Seq<u8>)
    ensures
        forall|i: int| 0 <= i < b58_pairs(b).len() ==> b58_index(#[trigger] b58_pairs(b)[i]) is Some,
        b58_pairs(b).len() == 2 * b.len(),
    decreases b.len(),
{
    if b.len() == 0 {
    } else {
        let v = b[0] as nat;
        lemma_b58_char_index(v / 58);
        lemma_b58_char_index(v % 58);
        lemma_b58_pairs_alphabet(b.skip(1));
        assert(forall|i: int|
            2 <= i < b58_pairs(b).len() ==> b58_pairs(b)[i] == b58_pairs(b.skip(1))[i - 2]);
    }
}

/// No base-58 digit is one of the path-sensitive characters.
pub proof fn lemma_b58_digit_safe(c: char)
    requires
        b58_index(c) is Some,
    ensures
        c != '/' && c != '_' && c != '.',
{
}

// ---------------------------------------------------------------------------
// Executable encoding
// ---------------------------------------------------------------------------
/// Relies on std's `char::from_u32`: `Some` exactly on Unicode scalar
/// values, returning the character with that code point.
pub assume_specification[ char::from_u32 ](v: u32) -> (r: Option<char>)
    ensures
        match r {
            Some(c) => valid_code_point(v as nat) && c as u32 == v,
            None => !valid_code_point(v as nat),
        },
;

proof fn lemma_pack_chars_snoc(s: Seq<char>, c: char)
    ensures
        pack_chars(s.push(c)) == pack_chars(s) + be24((c as u32) as nat),
    decreases s.len(),
{
    if s.len() == 0 {
        assert(s.push(c)[0] == c);
        assert(s.push(c).skip(1) =~= Seq::<char>::empty());
        assert(pack_chars(s.push(c)) == be24((c as u32) as nat) + pack_chars(
            Seq::<char>::empty(),
        ));
        assert(pack_chars(s.push(c)) =~= pack_chars(s) + be24((c as u32) as nat));
    } else {
        assert(s.push(c)[0] == s[0]);
        assert(s.push(c).skip(1) =~= s.skip(1).push(c));
        lemma_pack_chars_snoc(s.skip(1), c);
        assert(pack_chars(s.push(c)) == be24((s[0] as u32) as nat) + (pack_chars(s.skip(1)) + be24(
            (c as u32) as nat,
        )));
        assert(pack_chars(s.push(c)) =~= pack_chars(s) + be24((c as u32) as nat));
    }
}

fn push_be32(out: &mut Vec<u8>, n: u32)
    ensures
        final(out)@ == old(out)@ + be32(n as nat),
{
    let q0 = n / 256;
    let q1 = q0 / 256;
    let q2 = q1 / 256;
    out.push((q2 % 256) as u8);
    out.push((q1 % 256) as u8);
    out.push((q0 % 256) as u8);
    out.push((n % 256) as u8);
    assert(final(out)@ =~= old(out)@ + be32(n as nat));
}

fn push_be24(out: &mut Vec<u8>, n: u32)
    requires
        n < 0x100_0000,
    ensures
        final(out)@ == old(out)@ + be24(n as nat),
{
    let q0 = n / 256;
    let q1 = q0 / 256;
    out.push((q1 % 256) as u8);
    out.push((q0 % 256) as u8);
    out.push((n % 256) as u8);
    assert(final(out)@ =~= old(out)@ + be24(n as nat));
}

/// Appends the length-prefixed field encoding of `s` to `out`.
pub fn push_packed_str(out: &mut Vec<u8>, s: &str)
    requires
        fits_len(s@),
        old(out)@.len() + pack_str(s@).len() <= usize::MAX,
    ensures
        final(out)@ == old(out)@ + pack_str(s@),
{
    let len = s.unicode_len();
    push_be32(out, len as u32);
    let ghost mid = out@;
    let mut i: usize = 0;
    while i < len
        invariant
            len == s@.len(),
            i <= len,
            out@ == mid + pack_chars(s@.take(i as int)),
            mid.len() + pack_str(s@).len() <= usize::MAX + 4,
        decreases len - i,
    {
        let c = s.get_char(i);
        proof {
            vstd::utf8::char_is_scalar(c);
            lemma_pack_chars_snoc(s@.take(i as int), c);
            assert(s@.take(i as int).push(c) =~= s@.take(i as int + 1));
            lemma_pack_chars_len(s@.take(i as int));
        }
        push_be24(out, c as u32);
        i += 1;
    }
    proof {
        assert(s@.take(len as int) =~= s@);
    }
}

/// Reads one length-prefixed string field of `b` starting at `pos`,
/// returning the string and the position just past the field.
pub fn read_packed_str(b: &Vec<u8>, pos: usize) -> (r: Option<(String, usize)>)
    requires
        pos <= b@.len(),
    ensures
        match r {
            Some(sp) => unpack_str(b@, pos as int) == Some((sp.0@, sp.1 as int)) && pos < sp.1
                <= b@.len(),
            None => unpack_str(b@, pos as int) is None,
        },
{
    let blen = b.len();
    assert(b@.len() <= usize::MAX);
    let avail = blen - pos;
    if avail < 4 {
        return None;
    }
    let n: u64 = ((((b[pos] as u64) * 256 + (b[pos + 1] as u64)) * 256 + (b[pos + 2] as u64)) * 256
        + (b[pos + 3] as u64));
    assert(n == from_be32(b@[pos as int], b@[pos as int + 1], b@[pos as int + 2], b@[pos as int
        + 3]));
    let rest = avail - 4;
    if n > (rest as u64) / 3 {
        proof {
            lemma_unpack_chars_truncated(b@, pos as int + 4, n as nat);
        }
        return None;
    }
    let count = n as usize;
    let mut s = String::new();
    let mut k: usize = 0;
    let mut cur: usize = pos + 4;
    while k < count
        invariant
            cur == pos + 4 + 3 * k,
            k <= count,
            count == n,
            pos + 4 + 3 * (n as int) <= b@.len(),
            b@.len() <= usize::MAX,
            n as nat == from_be32(
                b@[pos as int],
                b@[pos as int + 1],
                b@[pos as int + 2],
                b@[pos as int + 3],
            ),
            unpack_chars(b@, pos as int + 4, n as nat) == (match unpack_chars(
                b@,
                cur as int,
                (count - k) as nat,
            ) {
                Some(rest) => Some(s@ + rest),
                None => None::<Seq<char>>,
            }),
        decreases count - k,
    {
        assert(cur + 3 <= b@.len());
        let v: u32 = (((b[cur] as u32) * 256 + (b[cur + 1] as u32)) * 256 + (b[cur + 2] as u32));
        assert(v == from_be24(b@[cur as int], b@[cur as int + 1], b@[cur as int + 2]));
        let ghost m = (count - k) as nat;
        let ghost sv = from_be24(b@[cur as int], b@[cur as int + 1], b@[cur as int + 2]);
        assert(sv as u32 == v);
        match char::from_u32(v) {
            Some(c) => {
                proof {
                    assert(valid_code_point(sv));
                    assert((sv as u32) as char == c) by {
                        vstd::utf8::char_u32_cast(c, v);
                    }
                    assert(unpack_chars(b@, cur as int, m) == (match unpack_chars(
                        b@,
                        cur as int + 3,
                        (m - 1) as nat,
                    ) {
                        Some(rest) => Some(seq![c] + rest),
                        None => None::<Seq<char>>,
                    }));
                    if unpack_chars(b@, cur as int + 3, (m - 1) as nat) is Some {
                        let t = unpack_chars(b@, cur as int + 3, (m - 1) as nat).unwrap();
                        assert(s@ + (seq![c] + t) =~= s@.push(c) + t);
                    }
                }
                s.push(c);
                cur = cur + 3;
                k = k + 1;
            },
            None => {
                proof {
                    assert(!valid_code_point(sv));
                    assert(unpack_chars(b@, cur as int, m) is None);
                    assert(unpack_chars(b@, pos as int + 4, n as nat) is None);
                    assert(unpack_str(b@, pos as int) is None);
                }
                return None;
            },
        }
    }
    assert(unpack_chars(b@, cur as int, 0) == Some(Seq::<char>::empty()));
    assert(unpack_chars(b@, pos as int + 4, n as nat) == Some(s@)) by {
        assert(s@ + Seq::<char>::empty() =~= s@);
    }
    Some((s, cur))
}

proof fn lemma_unpack_chars_truncated(b: Seq<u8>, pos: int, count: nat)
    requires
        0 <= pos <= b.len(),
        pos + 3 * count > b.len(),
    ensures
        unpack_chars(b, pos, count) is None,
    decreases count,
{
    if count == 0 {
    } else if pos + 3 > b.len() {
    } else {
        lemma_unpack_chars_truncated(b, pos + 3, (count - 1) as nat);
    }
}

/// Run-length encodes `v`.
pub fn rle_encode(v: &Vec<u8>) -> (r: Vec<u8>)
    ensures
        r@ == rle(v@),
{
    let mut out: Vec<u8> = Vec::new();
    let mut i: usize = 0;
    proof {
        assert(v@.skip(0) =~= v@);
        assert(Seq::<u8>::empty() + rle(v@) =~= rle(v@));
    }
    while i < v.len()
        invariant
            i <= v@.len(),
            rle(v@) == out@ + rle(v@.skip(i as int)),
        decreases v@.len() - i,
    {
        let b = v[i];
        let mut j: usize = i + 1;
        while j < v.len() && j - i < 255 && v[j] == b
            invariant
                i < j <= v@.len(),
                j - i <= 255,
                b == v@[i as int],
                forall|k: int| i <= k < j ==> v@[k] == b,
            decreases v@.len() - j,
        {
            j += 1;
        }
        proof {
            let s = v@.skip(i as int);
            assert(forall|k: int| 0 <= k < (j - i) ==> #[trigger] s[k] == s[0]);
            if j - i < 255 {
                assert(j == v@.len() || v@[j as int] != b);
                lemma_run_len_exact(s, (j - i) as nat);
            } else {
                lemma_run_len_at_least(s, 255);
            }
            assert(capped_run(s) == j - i);
            assert(rle(s) == seq![(j - i) as u8, s[0]] + rle(s.skip(j - i)));
            assert(s.skip(j - i) =~= v@.skip(j as int));
            assert((out@ + rle(s)).skip(out@.len() as int + 2) =~= rle(v@.skip(j as int)));
        }
        out.push((j - i) as u8);
        out.push(b);
        proof {
            assert(rle(v@) =~= out@ + rle(v@.skip(j as int)));
        }
        i = j;
    }
    proof {
        assert(v@.skip(v@.len() as int) =~= Seq::<u8>::empty());
        assert(rle(v@) =~= out@);
    }
    out
}

/// Expands a run-length encoding; `None` when the input is malformed.
pub fn rle_decode(v: &Vec<u8>) -> (r: Option<Vec<u8>>)
    ensures
        match r {
            Some(o) => unrle(v@) == Some(o@),
            None => unrle(v@) is None,
        },
{
    let mut out: Vec<u8> = Vec::new();
    let mut i: usize = 0;
    proof {
        assert(v@.skip(0) =~= v@);
        if unrle(v@) is Some {
            let t = unrle(v@).unwrap();
            assert(Seq::<u8>::empty() + t =~= t);
        }
    }
    while i < v.len()
        invariant
            i <= v@.len(),
            unrle(v@) == (match unrle(v@.skip(i as int)) {
                Some(t) => Some(out@ + t),
                None => None::<Seq<u8>>,
            }),
        decreases v@.len() - i,
    {
        if i + 1 == v.len() {
            return None;
        }
        let count = v[i];
        if count == 0 {
            return None;
        }
        let byte = v[i + 1];
        let ghost out0 = out@;
        let mut k: usize = 0;
        while k < count as usize
            invariant
                k <= count,
                out@ == out0 + Seq::new(k as nat, |q: int| byte),
            decreases count - k,
        {
            proof {
                assert(Seq::new((k + 1) as nat, |q: int| byte) =~= Seq::new(
                    k as nat,
                    |q: int| byte,
                ).push(byte));
            }
            out.push(byte);
            k += 1;
        }
        proof {
            let s = v@.skip(i as int);
            assert(s[0] == count && s[1] == byte);
            assert(s.skip(2) =~= v@.skip(i as int + 2));
            assert(unrle(s) == (match unrle(v@.skip(i as int + 2)) {
                Some(t) => Some(Seq::new(count as nat, |q: int| byte) + t),
                None => None::<Seq<u8>>,
            }));
            if unrle(v@.skip(i as int + 2)) is Some {
                let t = unrle(v@.skip(i as int + 2)).unwrap();
                assert(out0 + (Seq::new(count as nat, |q: int| byte) + t) =~= (out0 + Seq::new(
                    count as nat,
                    |q: int| byte,
                )) + t);
            }
        }
        i += 2;
    }
    proof {
        assert(v@.skip(v@.len() as int) =~= Seq::<u8>::empty());
        assert(unrle(v@) == Some(out@ + Seq::<u8>::empty()));
        assert(out@ + Seq::<u8>::empty() =~= out@);
    }
    Some(out)
}

fn b58_digit_char(d: u8) -> (c: char)
    requires
        d < 58,
    ensures
        c == b58_char(d as nat),
{
    match d {
        0 => '1',
        1 => '2',
        2 => '3',
        3 => '4',
        4 => '5',
        5 => '6',
        6 => '7',
        7 => '8',
        8 => '9',
        9 => 'A',
        10 => 'B',
        11 => 'C',
        12 => 'D',
        13 => 'E',
        14 => 'F',
        15 => 'G',
        16 => 'H',
        17 => 'J',
        18 => 'K',
        19 => 'L',
        20 => 'M',
        21 => 'N',
        22 => 'P',
        23 => 'Q',
        24 => 'R',
        25 => 'S',
        26 => 'T',
        27 => 'U',
        28 => 'V',
        29 => 'W',
        30 => 'X',
        31 => 'Y',
        32 => 'Z',
        33 => 'a',
        34 => 'b',
        35 => 'c',
        36 => 'd',
        37 => 'e',
        38 => 'f',
        39 => 'g',
        40 => 'h',
        41 => 'i',
        42 => 'j',
        43 => 'k',
        44 => 'm',
        45 => 'n',
        46 => 'o',
        47 => 'p',
        48 => 'q',
        49 => 'r',
        50 => 's',
        51 => 't',
        52 => 'u',
        53 => 'v',
        54 => 'w',
        55 => 'x',
        56 => 'y',
        _ => 'z',
    }
}

fn b58_digit_index(c: char) -> (r: Option<u8>)
    ensures
        match r {
            Some(d) => d < 58 && b58_index(c) == Some(d as nat),
            None => b58_index(c) is None,
        },
{
    match c {
        '1' => Some(0),
        '2' => Some(1),
        '3' => Some(2),
        '4' => Some(3),
        '5' => Some(4),
        '6' => Some(5),
        '7' => Some(6),
        '8' => Some(7),
        '9' => Some(8),
        'A' => Some(9),
        'B' => Some(10),
        'C' => Some(11),
        'D' => Some(12),
        'E' => Some(13),
        'F' => Some(14),
        'G' => Some(15),
        'H' => Some(16),
        'J' => Some(17),
        'K' => Some(18),
        'L' => Some(19),
        'M' => Some(20),
        'N' => Some(21),
        'P' => Some(22),
        'Q' => Some(23),
        'R' => Some(24),
        'S' => Some(25),
        'T' => Some(26),
        'U' => Some(27),
        'V' => Some(28),
        'W' => Some(29),
        'X' => Some(30),
        'Y' => Some(31),
        'Z' => Some(32),
        'a' => Some(33),
        'b' => Some(34),
        'c' => Some(35),
        'd' => Some(36),
        'e' => Some(37),
        'f' => Some(38),
        'g' => Some(39),
        'h' => Some(40),
        'i' => Some(41),
        'j' => Some(42),
        'k' => Some(43),
        'm' => Some(44),
        'n' => Some(45),
        'o' => Some(46),
        'p' => Some(47),
        'q' => Some(48),
        'r' => Some(49),
        's' => Some(50),
        't' => Some(51),
        'u' => Some(52),
        'v' => Some(53),
        'w' => Some(54),
        'x' => Some(55),
        'y' => Some(56),
        'z' => Some(57),
        _ => None,
    }
}

proof fn lemma_b58_pairs_snoc(b: Seq<u8>, x: u8)
    ensures
        b58_pairs(b.push(x)) == b58_pairs(b) + seq![
            b58_char(x as nat / 58),
            b58_char(x as nat % 58),
        ],
    decreases b.len(),
{
    if b.len() == 0 {
        assert(b.push(x)[0] == x);
        assert(b.push(x).skip(1) =~= Seq::<u8>::empty());
        assert(b58_pairs(b.push(x)) == seq![b58_char(x as nat / 58), b58_char(x as nat % 58)]
            + b58_pairs(Seq::<u8>::empty()));
        assert(b58_pairs(b.push(x)) =~= b58_pairs(b) + seq![
            b58_char(x as nat / 58),
            b58_char(x as nat % 58),
        ]);
    } else {
        assert(b.push(x)[0] == b[0]);
        assert(b.push(x).skip(1) =~= b.skip(1).push(x));
        lemma_b58_pairs_snoc(b.skip(1), x);
        assert(b58_pairs(b.push(x)) == seq![b58_char(b[0] as nat / 58), b58_char(b[0] as nat % 58)]
            + (b58_pairs(b.skip(1)) + seq![b58_char(x as nat / 58), b58_char(x as nat % 58)]));
        assert(b58_pairs(b.push(x)) =~= b58_pairs(b) + seq![
            b58_char(x as nat / 58),
            b58_char(x as nat % 58),
        ]);
    }
}

/// Writes `b` as two base-58 digits per byte.
pub fn b58_encode_pairs(b: &Vec<u8>) -> (r: String)
    ensures
        r@ == b58_pairs(b@),
{
    let mut out = String::new();
    let mut i: usize = 0;
    while i < b.len()
        invariant
            i <= b@.len(),
            out@ == b58_pairs(b@.take(i as int)),
        decreases b@.len() - i,
    {
        let x = b[i];
        proof {
            lemma_b58_pairs_snoc(b@.take(i as int), x);
            assert(b@.take(i as int).push(x) =~= b@.take(i as int + 1));
        }
        out.push(b58_digit_char(x / 58));
        out.push(b58_digit_char(x % 58));
        i += 1;
    }
    proof {
        assert(b@.take(b@.len() as int) =~= b@);
    }
    out
}

/// Reads a base-58 pair encoding back into bytes; `None` when the input
/// is not such an encoding.
pub fn b58_decode_pairs(s: &str) -> (r: Option<Vec<u8>>)
    ensures
        match r {
            Some(o) => b58_unpairs(s@) == Some(o@),
            None => b58_unpairs(s@) is None,
        },
{
    let len = s.unicode_len();
    let mut out: Vec<u8> = Vec::new();
    let mut i: usize = 0;
    proof {
        assert(s@.skip(0) =~= s@);
        if b58_unpairs(s@) is Some {
            let t = b58_unpairs(s@).unwrap();
            assert(Seq::<u8>::empty() + t =~= t);
        }
    }
    while i < len
        invariant
            i <= len,
            len == s@.len(),
            out@.len() <= i,
            b58_unpairs(s@) == (match b58_unpairs(s@.skip(i as int)) {
                Some(t) => Some(out@ + t),
                None => None::<Seq<u8>>,
            }),
        decreases len - i,
    {
        if i + 1 == len {
            return None;
        }
        let c0 = s.get_char(i);
        let c1 = s.get_char(i + 1);
        let d0 = b58_digit_index(c0);
        let d1 = b58_digit_index(c1);
        proof {
            let t = s@.skip(i as int);
            assert(t[0] == c0 && t[1] == c1);
            assert(t.skip(2) =~= s@.skip(i as int + 2));
        }
        match (d0, d1) {
            (Some(hi), Some(lo)) => {
                let v: u16 = (hi as u16) * 58 + (lo as u16);
                if v >= 256 {
                    return None;
                }
                let ghost out0 = out@;
                out.push(v as u8);
                proof {
                    if b58_unpairs(s@.skip(i as int + 2)) is Some {
                        let t = b58_unpairs(s@.skip(i as int + 2)).unwrap();
                        assert(out0 + (seq![v as u8] + t) =~= out@ + t);
                    }
                }
                i += 2;
            },
            _ => {
                return None;
            },
        }
    }
    proof {
        assert(s@.skip(s@.len() as int) =~= Seq::<char>::empty());
        assert(b58_unpairs(s@) == Some(out@ + Seq::<u8>::empty()));
        assert(out@ + Seq::<u8>::empty() =~= out@);
    }
    Some(out)
}

} // verus!
