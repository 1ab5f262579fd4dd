//! Fixed-width chain values: 20-byte addresses and 256-bit unsigned integers.

use crate::crypto::keccak;
use crate::encoding::{
    decimal_digits, hex_chars, hex_decoded, hex_lower, hex_upper_chars, lemma_hex_digit_cases,
    lower_code, nibble, same_up_to_case,
};
use vstd::prelude::*;

verus! {

/// A 20-byte account identifier.
#[derive(Clone, Copy, Debug)]
pub struct Address {
    pub bytes: [u8; 20],
}

impl View for Address {
    type V = Seq<u8>;

    open spec fn view(&self) -> Seq<u8> {
        self.bytes@
    }
}

impl PartialEq for Address {
    fn eq(&self, other: &Address) -> (r: bool) {
        let mut i: usize = 0;
        while i < 20
            invariant
                0 <= i <= 20,
                self.bytes@.len() == 20,
                other.bytes@.len() == 20,
                forall|j: int| 0 <= j < i ==> self.bytes@[j] == other.bytes@[j],
            decreases 20 - i,
        {
            if self.bytes[i] != other.bytes[i] {
                return false;
            }
            i = i + 1;
        }
        assert(self.bytes@ =~= other.bytes@);
        true
    }
}

impl vstd::std_specs::cmp::PartialEqSpecImpl for Address {
    open spec fn obeys_eq_spec() -> bool {
        true
    }

    open spec fn eq_spec(&self, other: &Address) -> bool {
        self@ == other@
    }
}

impl Eq for Address {}

impl Address {
    /// The all-zero address.
    pub fn zero() -> (r: Address)
        ensures
            r@ == Seq::new(20, |i: int| 0u8),
    {
        let r = Address { bytes: [0u8; 20] };
        assert(r@ =~= Seq::new(20, |i: int| 0u8));
        r
    }

    /// Parses the hexadecimal text of an address, with or without `0x`,
    /// in any case; the checksum is not checked.
    pub fn parse(s: &str) -> (r: Result<Address, String>)
        ensures
            match r {
                Ok(a) => parsed_address(s@) == Some(a@),
                Err(_) => parsed_address(s@) is None,
            },
    {
        address_from_text(s)
    }

    /// The checksummed text of the address.
    pub fn to_text(&self) -> (r: String)
        ensures
            r@ == checksummed(self@),
            same_up_to_case(r@, seq!['0', 'x'] + hex_lower(self@)),
    {
        proof {
            lemma_checksummed_up_to_case(self@);
        }
        address_text(self)
    }

    pub fn from_bytes(bytes: [u8; 20]) -> (r: Address)
        ensures
            r@ == bytes@,
    {
        Address { bytes }
    }
}


/// What the address parser makes of a string: the hexadecimal form of
/// exactly 20 bytes, with an optional `0x` prefix.
pub open spec fn parsed_address(s: Seq<char>) -> Option<Seq<u8>> {
    match hex_decoded(s) {
        Some(b) => if b.len() == 20 {
            Some(b)
        } else {
            None
        },
        None => None,
    }
}

/// The checksummed text of an address: `0x` and the hexadecimal digits of
/// its bytes, a digit written upper-case where the matching nibble of the
/// Keccak-256 digest of the lower-case digits is 8 or more.
pub open spec fn checksummed(a: Seq<u8>) -> Seq<char> {
    let lower = hex_lower(a);
    let digest = keccak(lower.map_values(|c: char| c as u8));
    seq!['0', 'x'] + Seq::new(
        lower.len(),
        |i: int|
            if nibble(digest, i) >= 8 {
                hex_upper_chars()[nibble(a, i)]
            } else {
                hex_chars()[nibble(a, i)]
            },
    )
}

/// The checksummed text differs from the lower-case text at most in case.
pub proof fn lemma_checksummed_up_to_case(a: Seq<u8>)
    ensures
        same_up_to_case(checksummed(a), seq!['0', 'x'] + hex_lower(a)),
{
    let c = checksummed(a);
    let p = seq!['0', 'x'] + hex_lower(a);
    assert forall|i: int| 0 <= i < c.len() implies lower_code(#[trigger] c[i]) == lower_code(
        p[i],
    ) by {
        if i >= 2 {
            lemma_hex_digit_cases(nibble(a, i - 2));
        }
    }
}

/// Relies on alloy's `Display` for `Address` (EIP-55 checksum, no chain id).
#[verifier::external_body]
fn address_text(a: &Address) -> (r: String)
    ensures
        r@ == checksummed(a@),
{
    alloy::primitives::Address::from(a.bytes).to_string()
}

/// Relies on alloy's `FromStr` for `Address`: the hexadecimal form of 20 bytes.
#[verifier::external_body]
fn address_from_text(s: &str) -> (r: Result<Address, String>)
    ensures
        match r {
            Ok(a) => parsed_address(s@) == Some(a@),
            Err(_) => parsed_address(s@) is None,
        },
{
    s.parse::<alloy::primitives::Address>().map(|a| Address { bytes: a.0.0 }).map_err(
        |e| e.to_string(),
    )
}

/// Relies on alloy's `Display` for `U256`: the shortest decimal form.
#[verifier::external_body]
fn u256_text(v: &U256) -> (r: String)
    ensures
        r@ == decimal_digits(v@),
{
    alloy::primitives::U256::from_limbs(v.limbs).to_string()
}

/// 2^64, the weight of one limb.
pub open spec fn limb_base() -> nat {
    0x1_0000_0000_0000_0000nat
}

/// The number that four little-endian 64-bit limbs stand for.
pub open spec fn limbs_value(l: Seq<u64>) -> nat {
    l[0] as nat + limb_base() * (l[1] as nat + limb_base() * (l[2] as nat + limb_base()
        * (l[3] as nat)))
}

/// A 256-bit unsigned integer held as four little-endian 64-bit limbs.
#[derive(Clone, Copy, Debug)]
pub struct U256 {
    pub limbs: [u64; 4],
}

impl View for U256 {
    type V = nat;

    open spec fn view(&self) -> nat {
        limbs_value(self.limbs@)
    }
}

impl U256 {
    pub fn from_u64(n: u64) -> (r: U256)
        ensures
            r@ == n as nat,
    {
        U256 { limbs: [n, 0, 0, 0] }
    }

    pub fn from_limbs(limbs: [u64; 4]) -> (r: U256)
        ensures
            r.limbs@ == limbs@,
    {
        U256 { limbs }
    }

    /// The number that follows `n`, which may not fit in 64 bits.
    pub fn from_u64_successor(n: u64) -> (r: U256)
        ensures
            r@ == n as nat + 1,
    {
        if n == u64::MAX {
            U256 { limbs: [0, 1, 0, 0] }
        } else {
            U256 { limbs: [n + 1, 0, 0, 0] }
        }
    }

    /// Whether the value is zero.
    pub fn is_zero(&self) -> (r: bool)
        ensures
            r == (self@ == 0),
    {
        let l0 = self.limbs[0];
        let l1 = self.limbs[1];
        let l2 = self.limbs[2];
        let l3 = self.limbs[3];
        let ghost b = limb_base();
        let ghost rest: nat = l1 as nat + b * (l2 as nat + b * (l3 as nat));
        assert(self@ == l0 as nat + b * rest);
        if l0 == 0 && l1 == 0 && l2 == 0 && l3 == 0 {
            assert(rest == 0) by (nonlinear_arith)
                requires
                    rest == l1 as nat + b * (l2 as nat + b * (l3 as nat)),
                    l1 == 0,
                    l2 == 0,
                    l3 == 0,
            ;
            assert(b * rest == 0) by (nonlinear_arith)
                requires
                    rest == 0,
            ;
            true
        } else {
            if l0 == 0 {
                assert(rest >= 1) by (nonlinear_arith)
                    requires
                        rest == l1 as nat + b * (l2 as nat + b * (l3 as nat)),
                        l1 != 0 || l2 != 0 || l3 != 0,
                        b > 0,
                ;
                assert(b * rest >= 1) by (nonlinear_arith)
                    requires
                        rest >= 1,
                        b > 0,
                ;
            }
            false
        }
    }

    /// The decimal text of the value.
    pub fn to_text(&self) -> (r: String)
        ensures
            r@ == decimal_digits(self@),
    {
        u256_text(self)
    }

    /// Whether this value is at least `n`.
    pub fn ge_u64(&self, n: u64) -> (r: bool)
        ensures
            r == (self@ >= n as nat),
    {
        let l0 = self.limbs[0];
        let l1 = self.limbs[1];
        let l2 = self.limbs[2];
        let l3 = self.limbs[3];
        let ghost b = limb_base();
        let ghost rest: nat = l1 as nat + b * (l2 as nat + b * (l3 as nat));
        assert(self@ == l0 as nat + b * rest);
        if l1 != 0 || l2 != 0 || l3 != 0 {
            assert(rest >= 1) by (nonlinear_arith)
                requires
                    rest == l1 as nat + b * (l2 as nat + b * (l3 as nat)),
                    l1 != 0 || l2 != 0 || l3 != 0,
                    b > 0,
            ;
            assert(b * rest >= b) by (nonlinear_arith)
                requires
                    rest >= 1,
                    b > 0,
            ;
            true
        } else {
            assert(rest == 0);
            assert(b * rest == 0) by (nonlinear_arith)
                requires
                    rest == 0,
            ;
            l0 >= n
        }
    }
}

} // verus!
