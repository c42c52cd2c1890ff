//! Amounts of wei as unsigned 256-bit integers.
use vstd::prelude::*;
use vstd::arithmetic::power2::pow2;

verus! {

/// One more than the largest amount a 256-bit fee can hold.
pub open spec fn wei_limit() -> nat {
    pow2(256)
}

/// An amount in wei, the chain's smallest unit: four 64-bit limbs, least
/// significant first, as the chain's 256-bit integers are laid out.
#[derive(Clone, Copy, Debug)]
pub struct Wei {
    pub limbs: [u64; 4],
}

impl View for Wei {
    type V = nat;

    open spec fn view(&self) -> nat {
        (self.limbs[0] + self.limbs[1] * 0x1_0000_0000_0000_0000 + self.limbs[2]
            * 0x1_0000_0000_0000_0000_0000_0000_0000_0000 + self.limbs[3]
            * 0x1_0000_0000_0000_0000_0000_0000_0000_0000_0000_0000_0000_0000) as nat
    }
}

impl Wei {
    /// The amount zero.
    pub fn zero() -> (r: Wei)
        ensures
            r@ == 0,
    {
        Wei { limbs: [0, 0, 0, 0] }
    }

    /// The amount `v`.
    pub fn from_u64(v: u64) -> (r: Wei)
        ensures
            r@ == v,
    {
        Wei { limbs: [v, 0, 0, 0] }
    }

    /// The amount as a decimal number of gwei (10^9 wei) with nine digits
    /// after the point, as fees are usually shown: `1500000000` wei reads
    /// `"1.500000000"`.
    pub fn to_gwei_string(&self) -> (r: String)
        ensures
            r@ == gwei_text(self@),
    {
        match format_gwei(self) {
            Some(s) => s,
            None => String::new(),
        }
    }
}

/// The decimal digit `d`, for `d < 10`.
pub open spec fn digit_char(d: nat) -> char {
    seq!['0', '1', '2', '3', '4', '5', '6', '7', '8', '9'][d as int]
}

/// The decimal digits of `n`, without leading zeros (`"0"` for zero).
pub open spec fn decimal(n: nat) -> Seq<char>
    decreases n,
{
    if n < 10 {
        seq![digit_char(n)]
    } else {
        decimal(n / 10).push(digit_char(n % 10))
    }
}

/// `s` with zeros in front, up to `width` characters.
pub open spec fn zero_padded(s: Seq<char>, width: nat) -> Seq<char> {
    if s.len() >= width {
        s
    } else {
        Seq::new((width - s.len()) as nat, |i: int| '0') + s
    }
}

/// `v` wei written in gwei: the whole gwei, a point, and the rest in nine digits.
pub open spec fn gwei_text(v: nat) -> Seq<char> {
    decimal(v / 1_000_000_000) + seq!['.'] + zero_padded(decimal(v % 1_000_000_000), 9)
}

/// Relies on `ethers::types::U256::checked_add`: the sum, or `None` where it
/// does not fit in 256 bits.
#[verifier::external_body]
pub(crate) fn checked_add(a: &Wei, b: &Wei) -> (r: Option<Wei>)
    ensures
        r is None <==> a@ + b@ >= wei_limit(),
        r matches Some(c) ==> c@ == a@ + b@,
{
    ethers::types::U256(a.limbs).checked_add(ethers::types::U256(b.limbs)).map(|c| Wei { limbs: c.0 })
}

/// Relies on the order of `ethers::types::U256` (its `Ord`, which compares
/// the limbs from the most significant one down): numeric order.
#[verifier::external_body]
pub(crate) fn less_than(a: &Wei, b: &Wei) -> (r: bool)
    ensures
        r == (a@ < b@),
{
    ethers::types::U256(a.limbs) < ethers::types::U256(b.limbs)
}

/// Relies on `ethers::utils::format_units` with the unit `"gwei"`: nine
/// decimals, the quotient by 10^9, a point, and the remainder padded with
/// zeros to nine digits. It fails only for units of 77 decimals or more.
#[verifier::external_body]
fn format_gwei(w: &Wei) -> (r: Option<String>)
    ensures
        r is Some,
        r matches Some(s) ==> s@ == gwei_text(w@),
{
    ethers::utils::format_units(ethers::types::U256(w.limbs), "gwei").ok()
}

} // verus!
