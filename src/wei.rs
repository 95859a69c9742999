//! Amounts of wei (256-bit unsigned integers) and their display in ether.
use alloy::primitives::U256;
use std::str::FromStr;
use vstd::prelude::*;
use crate::text::{decimal, join2};

verus! {

pub open spec fn limb_base() -> nat {
    0x1_0000_0000_0000_0000nat
}

/// Wei per ether.
pub open spec fn wei_per_ether() -> nat {
    1_000_000_000_000_000_000nat
}

/// An amount of wei, held as four 64-bit limbs, least significant first.
#[derive(Debug, Clone, Copy, PartialEq, Eq, Default)]
pub struct Wei {
    pub limbs: [u64; 4],
}

impl View for Wei {
    type V = nat;

    open spec fn view(&self) -> nat {
        self.limbs@[0] as nat + limb_base() * (self.limbs@[1] as nat + limb_base() * (
        self.limbs@[2] as nat + limb_base() * (self.limbs@[3] as nat)))
    }
}

/// `width` characters at least: the text, preceded by as many zeros as needed.
pub open spec fn zero_padded(s: Seq<char>, width: nat) -> Seq<char> {
    if s.len() >= width {
        s
    } else {
        Seq::new((width - s.len()) as nat, |i: int| '0') + s
    }
}

/// An amount of wei written in ether with all eighteen fractional digits.
pub open spec fn ether_text(n: nat) -> Seq<char> {
    decimal(n / wei_per_ether()) + seq!['.'] + zero_padded(decimal(n % wei_per_ether()), 18)
}

/// The text without its trailing zeros.
pub open spec fn strip_zeros(s: Seq<char>) -> Seq<char>
    decreases s.len(),
{
    if s.len() > 0 && s.last() == '0' {
        strip_zeros(s.drop_last())
    } else {
        s
    }
}

/// A decimal text with the trailing zeros of its fraction taken off, and the
/// point too when no fractional digit is left; a text without a point is kept.
pub open spec fn trim_fraction(s: Seq<char>) -> Seq<char> {
    if s.contains('.') {
        let t = strip_zeros(s);
        if t.len() > 0 && t.last() == '.' {
            t.drop_last()
        } else {
            t
        }
    } else {
        s
    }
}

pub open spec fn eth_suffix() -> Seq<char> {
    seq![' ', 'E', 'T', 'H']
}

/// The display of an amount: `0 ETH` for nothing, else the ether amount with
/// its fraction trimmed.
pub open spec fn eth_display(n: nat) -> Seq<char> {
    if n == 0 || trim_fraction(ether_text(n)).len() == 0 {
        seq!['0'] + eth_suffix()
    } else {
        trim_fraction(ether_text(n)) + eth_suffix()
    }
}

/// What `U256`'s `FromStr` makes of a text (decimal, or with a `0x`, `0o` or
/// `0b` prefix), as a number; `None` where it refuses the text.
pub uninterp spec fn parsed_wei(s: Seq<char>) -> Option<nat>;

/// Relies on `alloy::primitives::utils::format_units` with the unit `"ether"`,
/// which it always accepts: the integer part, a point, and the remainder below
/// one ether padded with zeros to eighteen digits.
#[verifier::external_body]
pub(crate) fn format_ether(w: &Wei) -> (r: String)
    ensures
        r@ == ether_text(w@),
{
    alloy::primitives::utils::format_units(U256::from_limbs(w.limbs), "ether").unwrap_or_default()
}

/// Relies on `U256`'s `Display` (ruint): plain decimal notation.
#[verifier::external_body]
pub(crate) fn wei_decimal(w: &Wei) -> (r: String)
    ensures
        r@ == decimal(w@),
{
    U256::from_limbs(w.limbs).to_string()
}

/// Relies on `U256::from_str` (ruint's `FromStr`).
#[verifier::external_body]
pub(crate) fn parse_wei(s: &str) -> (r: Option<Wei>)
    ensures
        r is Some ==> parsed_wei(s@) == Some(r->0@),
        r is None ==> parsed_wei(s@) is None,
{
    match U256::from_str(s) {
        Ok(v) => Some(Wei { limbs: v.into_limbs() }),
        Err(_) => None,
    }
}

impl Wei {
    pub fn zero() -> (r: Wei)
        ensures
            r@ == 0,
    {
        Wei { limbs: [0u64, 0u64, 0u64, 0u64] }
    }

    pub fn from_u64(v: u64) -> (r: Wei)
        ensures
            r@ == v as nat,
    {
        Wei { limbs: [v, 0u64, 0u64, 0u64] }
    }

    pub fn is_zero(&self) -> (r: bool)
        ensures
            r == (self@ == 0),
    {
        let r = self.limbs[0] == 0 && self.limbs[1] == 0 && self.limbs[2] == 0 && self.limbs[3]
            == 0;
        proof {
            let b = limb_base();
            let l0 = self.limbs@[0] as nat;
            let l1 = self.limbs@[1] as nat;
            let l2 = self.limbs@[2] as nat;
            let l3 = self.limbs@[3] as nat;
            let t3 = b * l3;
            let t2 = b * (l2 + t3);
            let t1 = b * (l1 + t2);
            assert(t3 >= 0 && t2 >= 0 && t1 >= 0) by (nonlinear_arith)
                requires t3 == b * l3, t2 == b * (l2 + t3), t1 == b * (l1 + t2), b > 0;
            assert(t1 == 0 ==> l1 + t2 == 0) by (nonlinear_arith)
                requires t1 == b * (l1 + t2), b > 0;
            assert(t2 == 0 ==> l2 + t3 == 0) by (nonlinear_arith)
                requires t2 == b * (l2 + t3), b > 0;
            assert(t3 == 0 ==> l3 == 0) by (nonlinear_arith)
                requires t3 == b * l3, b > 0;
        }
        r
    }
}

/// Removes the trailing zeros of the fraction of a decimal text, and the point
/// when nothing is left after it.
pub fn trim_decimal(value: &mut String)
    ensures
        final(value)@ == trim_fraction(old(value)@),
{
    let ghost s = value@;
    let n = value.as_str().unicode_len();
    let mut has_point = false;
    let mut i: usize = 0;
    while i < n
        invariant
            value@ == s,
            n == s.len(),
            i <= n,
            has_point == (exists|j: int| 0 <= j < i && s[j] == '.'),
        decreases n - i,
    {
        if value.as_str().get_char(i) == '.' {
            has_point = true;
        }
        i = i + 1;
    }
    if !has_point {
        assert(!s.contains('.'));
        return;
    }
    assert(s.contains('.'));
    assert(s.subrange(0, n as int) =~= s);
    let mut k: usize = n;
    while k > 0 && value.as_str().get_char(k - 1) == '0'
        invariant
            value@ == s,
            n == s.len(),
            k <= n,
            strip_zeros(s.subrange(0, k as int)) == strip_zeros(s),
        decreases k,
    {
        assert(s.subrange(0, k as int).drop_last() =~= s.subrange(0, k - 1));
        k = k - 1;
    }
    assert(strip_zeros(s.subrange(0, k as int)) == s.subrange(0, k as int));
    if k > 0 && value.as_str().get_char(k - 1) == '.' {
        assert(s.subrange(0, k as int).drop_last() =~= s.subrange(0, k - 1));
        k = k - 1;
    }
    let kept = value.as_str().substring_char(0, k).to_owned();
    *value = kept;
}

/// The display of an amount in ether, e.g. `1.5 ETH`, or `0 ETH` for nothing.
pub fn format_eth_value(value: &Wei) -> (r: String)
    ensures
        r@ == eth_display(value@),
{
    proof {
        reveal_strlit("0 ETH");
        reveal_strlit(" ETH");
    }
    if value.is_zero() {
        let r = "0 ETH".to_owned();
        assert(r@ =~= eth_display(value@));
        return r;
    }
    let mut eth = format_ether(value);
    trim_decimal(&mut eth);
    if eth.as_str().is_empty() {
        let r = "0 ETH".to_owned();
        assert(r@ =~= eth_display(value@));
        r
    } else {
        let r = join2(eth.as_str(), " ETH");
        assert(r@ =~= eth_display(value@));
        r
    }
}

} // verus!
