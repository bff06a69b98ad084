//! Seed key material for a cluster.
//!
//! Only the output shape of key generation matters here: a 32-byte private
//! key and a 20-byte address, both rendered in hex.  Well-known test keys
//! are reused first; keys beyond them are drawn fresh.

use vstd::prelude::*;

use crate::ids;

verus! {

/// True for an ASCII hex digit, either case.
pub open spec fn is_hex_char(c: char) -> bool {
    ('0' <= c <= '9') || ('a' <= c <= 'f') || ('A' <= c <= 'F')
}

/// One generated key: the private scalar and the address derived from
/// it, both hex-rendered.
#[derive(Debug, PartialEq)]
pub struct KeyInfo {
    /// 64 lowercase hex digits.
    pub private_key_hex: String,
    /// `0x` followed by 40 hex digits.
    pub eth_address: String,
}

impl Clone for KeyInfo {
    /// A clone carries the same digits.
    fn clone(&self) -> (r: Self)
        ensures
            r == *self,
    {
        let r = KeyInfo {
            private_key_hex: self.private_key_hex.clone(),
            eth_address: self.eth_address.clone(),
        };
        proof {
            assert(r == *self);
        }
        r
    }
}

/// A key record has the expected shape.
pub open spec fn well_formed_key(k: KeyInfo) -> bool {
    &&& k.private_key_hex@.len() == 64
    &&& (forall|i: int| 0 <= i < 64 ==> is_hex_char(#[trigger] k.private_key_hex@[i]))
    &&& k.eth_address@.len() == 42
    &&& k.eth_address@[0] == '0'
    &&& k.eth_address@[1] == 'x'
    &&& (forall|i: int| 2 <= i < 42 ==> is_hex_char(#[trigger] k.eth_address@[i]))
}

/// The address without its `0x` prefix, when it has one.
pub open spec fn spec_strip_0x(s: Seq<char>) -> Seq<char> {
    if s.len() >= 2 && s[0] == '0' && s[1] == 'x' {
        s.skip(2)
    } else {
        s
    }
}

/// Strips a leading `0x` from an address.
pub fn strip_0x(s: &str) -> (r: &str)
    ensures
        r@ == spec_strip_0x(s@),
{
    let len = s.unicode_len();
    if len >= 2 && s.get_char(0) == '0' && s.get_char(1) == 'x' {
        let r = s.substring_char(2, len);
        proof {
            assert(r@ =~= s@.skip(2));
        }
        r
    } else {
        s
    }
}

fn hex_char(d: u8) -> (c: char)
    requires
        d < 16,
    ensures
        is_hex_char(c),
        '0' <= c <= '9' || 'a' <= c <= 'f',
{
    match d {
        0 => '0',
        1 => '1',
        2 => '2',
        3 => '3',
        4 => '4',
        5 => '5',
        6 => '6',
        7 => '7',
        8 => '8',
        9 => '9',
        10 => 'a',
        11 => 'b',
        12 => 'c',
        13 => 'd',
        14 => 'e',
        _ => 'f',
    }
}

/// A string of `2 * n` random lowercase hex digits.
fn random_hex(n: usize) -> (r: String)
    requires
        n <= usize::MAX / 2,
    ensures
        r@.len() == 2 * n,
        forall|i: int| 0 <= i < 2 * n ==> is_hex_char(#[trigger] r@[i]),
{
    let mut r = String::new();
    let mut i: usize = 0;
    while i < n
        invariant
            i <= n,
            n <= usize::MAX / 2,
            r@.len() == 2 * i,
            forall|j: int| 0 <= j < 2 * i ==> is_hex_char(#[trigger] r@[j]),
        decreases n - i,
    {
        let b = ids::random_u8();
        r.push(hex_char(b / 16));
        r.push(hex_char(b % 16));
        i += 1;
    }
    r
}

fn ewoq_key() -> (k: KeyInfo)
    ensures
        k.private_key_hex@ == "56289e99c94b6912bfc12adc093c9b51124f0dc54ac7a766b2bc5ccf558d8027"@,
        k.eth_address@ == "0x8db97C7cEcE249c2b98bDC0226Cc4C2A57BF52FC"@,
        well_formed_key(k),
{
    let k = KeyInfo {
        private_key_hex: "56289e99c94b6912bfc12adc093c9b51124f0dc54ac7a766b2bc5ccf558d8027"
            .to_owned(),
        eth_address: "0x8db97C7cEcE249c2b98bDC0226Cc4C2A57BF52FC".to_owned(),
    };
    proof {
        reveal_strlit("56289e99c94b6912bfc12adc093c9b51124f0dc54ac7a766b2bc5ccf558d8027");
        reveal_strlit("0x8db97C7cEcE249c2b98bDC0226Cc4C2A57BF52FC");
    }
    k
}

/// The well-known pre-funded test keys, usable on every network that is
/// not worth real money.
pub fn test_keys() -> (r: Vec<KeyInfo>)
    ensures
        r@.len() == 1,
        r@[0].private_key_hex@
            == "56289e99c94b6912bfc12adc093c9b51124f0dc54ac7a766b2bc5ccf558d8027"@,
        r@[0].eth_address@ == "0x8db97C7cEcE249c2b98bDC0226Cc4C2A57BF52FC"@,
        well_formed_key(r@[0]),
{
    let mut v = Vec::new();
    v.push(ewoq_key());
    v
}

/// Draws one fresh key.  Only the shape of the result is fixed; the
/// digits are random.
pub fn generate() -> (r: KeyInfo)
    ensures
        well_formed_key(r),
{
    let private_key_hex = random_hex(32);
    let mut eth_address = "0x".to_owned();
    let tail = random_hex(20);
    eth_address.append(tail.as_str());
    proof {
        reveal_strlit("0x");
        assert(eth_address@[0] == '0' && eth_address@[1] == 'x');
        assert(forall|i: int|
            2 <= i < 42 ==> #[trigger] eth_address@[i] == tail@[i - 2]);
    }
    KeyInfo { private_key_hex, eth_address }
}

/// Generates `n` keys: the well-known test keys first, fresh keys beyond
/// them.
pub fn generate_n(n: usize) -> (r: Vec<KeyInfo>)
    ensures
        r@.len() == n,
        forall|i: int| 0 <= i < n ==> well_formed_key(#[trigger] r@[i]),
        n >= 1 ==> r@[0].private_key_hex@
            == "56289e99c94b6912bfc12adc093c9b51124f0dc54ac7a766b2bc5ccf558d8027"@,
{
    let mut r: Vec<KeyInfo> = Vec::new();
    let mut i: usize = 0;
    while i < n
        invariant
            i <= n,
            r@.len() == i,
            forall|j: int| 0 <= j < i ==> well_formed_key(#[trigger] r@[j]),
            i >= 1 ==> r@[0].private_key_hex@
                == "56289e99c94b6912bfc12adc093c9b51124f0dc54ac7a766b2bc5ccf558d8027"@,
        decreases n - i,
    {
        if i < 1 {
            r.push(ewoq_key());
        } else {
            r.push(generate());
        }
        i += 1;
    }
    r
}

} // verus!
