//! Identifiers derived from the clock and from randomness.

use vstd::prelude::*;

use crate::text;

verus! {

/// True for a lowercase ASCII letter or digit.
pub open spec fn is_lower_alnum(c: char) -> bool {
    ('a' <= c <= 'z') || ('0' <= c <= '9')
}

/// Relies on chrono's `Utc::now`: the current time as seconds since the
/// Unix epoch.  Nothing can be promised of the clock's value.
#[verifier::external_body]
fn unix_seconds_now() -> i64 {
    chrono::Utc::now().timestamp()
}

/// Relies on chrono's `Utc::now` and `DateTime::format` with `%y%m%d`:
/// the current UTC date as six ASCII digits, two each for year, month
/// and day.  Which six digits come back depends on the clock.
#[verifier::external_body]
fn date_stamp_now() -> (r: String)
    ensures
        r@.len() == 6,
        forall|i: int| 0 <= i < 6 ==> text::is_digit_char(r@[i]),
{
    chrono::Utc::now().format("%y%m%d").to_string()
}

/// Relies on rand's `random`: one uniformly random byte.  Nothing can be
/// promised of its value.
#[verifier::external_body]
pub(crate) fn random_u8() -> u8 {
    rand::random()
}

fn lower_alnum_char(d: u8) -> (c: char)
    requires
        d < 36,
    ensures
        is_lower_alnum(c),
{
    let table = "abcdefghijklmnopqrstuvwxyz0123456789";
    proof {
        reveal_strlit("abcdefghijklmnopqrstuvwxyz0123456789");
    }
    table.get_char(d as usize)
}

/// A random string of `n` lowercase alphanumeric characters.
pub fn random_string(n: usize) -> (r: String)
    ensures
        r@.len() == n,
        forall|i: int| 0 <= i < n ==> is_lower_alnum(#[trigger] r@[i]),
{
    let mut r = String::new();
    let mut i: usize = 0;
    while i < n
        invariant
            i <= n,
            r@.len() == i,
            forall|j: int| 0 <= j < i ==> is_lower_alnum(#[trigger] r@[j]),
        decreases n - i,
    {
        r.push(lower_alnum_char(random_u8() % 36));
        i += 1;
    }
    r
}

/// An identifier `{prefix}-{seconds}` stamped with the current clock.
pub fn with_time(prefix: &str) -> (r: String)
    ensures
        exists|t: nat| r@ == prefix@ + "-"@ + text::dec_rep(t),
{
    let s = unix_seconds_now();
    let t: u64 = if s < 0 {
        0
    } else {
        s as u64
    };
    let mut r = prefix.to_owned();
    r.append("-");
    text::push_u64_dec(&mut r, t);
    proof {
        assert(r@ =~= prefix@ + "-"@ + text::dec_rep(t as nat));
    }
    r
}

/// A globally scoped bucket name: a fixed prefix, a coarse date stamp,
/// and a random host-scoped suffix.
pub fn bucket_name() -> (r: String)
    ensures
        r@.len() == 31,
        r@.take(14) == "avalanche-ops-"@,
        forall|i: int| 14 <= i < 20 ==> text::is_digit_char(#[trigger] r@[i]),
        r@[20] == '-',
        forall|i: int| 21 <= i < 31 ==> is_lower_alnum(#[trigger] r@[i]),
{
    let mut r = "avalanche-ops-".to_owned();
    let stamp = date_stamp_now();
    r.append(stamp.as_str());
    r.append("-");
    let suffix = random_string(10);
    r.append(suffix.as_str());
    proof {
        reveal_strlit("avalanche-ops-");
        reveal_strlit("-");
        assert(r@.take(14) =~= "avalanche-ops-"@);
        assert(forall|i: int| 14 <= i < 20 ==> #[trigger] r@[i] == stamp@[i - 14]);
        assert(forall|i: int| 21 <= i < 31 ==> #[trigger] r@[i] == suffix@[i - 21]);
    }
    r
}

} // verus!
