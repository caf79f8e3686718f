//! Addresses, code identifiers and unsigned 256-bit amounts.
//!
//! The three types hold plain words, so that contracts can speak of them. Amount
//! arithmetic is done by `sails_rs::U256`; the calls into it are the only
//! unproved items of this module.

use vstd::prelude::*;

verus! {

/// Compares two 32-byte arrays position by position.
fn bytes_eq(a: &[u8; 32], b: &[u8; 32]) -> (r: bool)
    ensures
        r == (*a == *b),
{
    let mut i: usize = 0;
    while i < 32
        invariant
            i <= 32,
            forall|j: int| 0 <= j < i ==> a@[j] == b@[j],
        decreases 32 - i,
    {
        if a[i] != b[i] {
            return false;
        }
        i += 1;
    }
    assert(*a =~= *b);
    true
}

/// The address of an actor: a user or a deployed program.
#[derive(Clone, Copy, Debug, Eq, Hash)]
pub struct ActorId {
    pub bytes: [u8; 32],
}

impl ActorId {
    /// The address made of the given 32 bytes.
    pub fn new(bytes: [u8; 32]) -> (r: ActorId)
        ensures
            r.bytes == bytes,
    {
        ActorId { bytes }
    }

    /// The all-zero address.
    pub fn zero() -> (r: ActorId)
        ensures
            r.bytes@ == Seq::new(32, |i: int| 0u8),
    {
        ActorId { bytes: [0u8; 32] }
    }

    /// The 32 bytes of the address.
    pub fn into_bytes(self) -> (r: [u8; 32])
        ensures
            r == self.bytes,
    {
        self.bytes
    }
}

impl PartialEq for ActorId {
    fn eq(&self, other: &Self) -> (r: bool) {
        bytes_eq(&self.bytes, &other.bytes)
    }
}

impl vstd::std_specs::cmp::PartialEqSpecImpl for ActorId {
    open spec fn obeys_eq_spec() -> bool {
        true
    }

    open spec fn eq_spec(&self, other: &Self) -> bool {
        *self == *other
    }
}

impl Default for ActorId {
    fn default() -> (r: ActorId)
        ensures
            r.bytes@ == Seq::new(32, |i: int| 0u8),
    {
        ActorId::zero()
    }
}

/// The identifier of a program's code, from which new programs are instantiated.
#[derive(Clone, Copy, Debug, Eq, Hash)]
pub struct CodeId {
    pub bytes: [u8; 32],
}

impl CodeId {
    /// The code identifier made of the given 32 bytes.
    pub fn new(bytes: [u8; 32]) -> (r: CodeId)
        ensures
            r.bytes == bytes,
    {
        CodeId { bytes }
    }

    /// The all-zero code identifier.
    pub fn zero() -> (r: CodeId)
        ensures
            r.bytes@ == Seq::new(32, |i: int| 0u8),
    {
        CodeId { bytes: [0u8; 32] }
    }

    /// The 32 bytes of the identifier.
    pub fn into_bytes(self) -> (r: [u8; 32])
        ensures
            r == self.bytes,
    {
        self.bytes
    }
}

impl PartialEq for CodeId {
    fn eq(&self, other: &Self) -> (r: bool) {
        bytes_eq(&self.bytes, &other.bytes)
    }
}

impl vstd::std_specs::cmp::PartialEqSpecImpl for CodeId {
    open spec fn obeys_eq_spec() -> bool {
        true
    }

    open spec fn eq_spec(&self, other: &Self) -> bool {
        *self == *other
    }
}

impl Default for CodeId {
    fn default() -> (r: CodeId)
        ensures
            r.bytes@ == Seq::new(32, |i: int| 0u8),
    {
        CodeId::zero()
    }
}

/// The weight of one limb position: 2^64.
pub open spec fn limb_base() -> nat {
    0x1_0000_0000_0000_0000
}

/// The number of 256-bit amounts: 2^256. Every amount is below it.
pub open spec fn u256_modulus() -> nat {
    limb_base() * limb_base() * limb_base() * limb_base()
}

/// The number that four limbs stand for, least significant limb first.
pub open spec fn limbs_value(limbs: Seq<u64>) -> nat
    recommends
        limbs.len() == 4,
{
    (limbs[0] as nat) + limb_base() * ((limbs[1] as nat) + limb_base() * ((limbs[2] as nat)
        + limb_base() * (limbs[3] as nat)))
}

/// An unsigned 256-bit amount, held as four 64-bit limbs, least significant
/// first. Its view is the number it stands for.
#[derive(Clone, Copy, Debug, Eq, Hash)]
pub struct U256 {
    pub limbs: [u64; 4],
}

impl View for U256 {
    type V = nat;

    open spec fn view(&self) -> nat {
        limbs_value(self.limbs@)
    }
}

impl PartialEq for U256 {
    fn eq(&self, other: &Self) -> (r: bool) {
        let same = self.limbs[0] == other.limbs[0] && self.limbs[1] == other.limbs[1]
            && self.limbs[2] == other.limbs[2] && self.limbs[3] == other.limbs[3];
        proof {
            if same {
                assert(self.limbs =~= other.limbs);
            }
        }
        same
    }
}

impl vstd::std_specs::cmp::PartialEqSpecImpl for U256 {
    open spec fn obeys_eq_spec() -> bool {
        true
    }

    open spec fn eq_spec(&self, other: &Self) -> bool {
        *self == *other
    }
}

/// Every amount is below 2^256.
pub proof fn lemma_u256_bounded(a: U256)
    ensures
        a@ < u256_modulus(),
{
    let b = limb_base();
    let l0 = a.limbs@[0] as nat;
    let l1 = a.limbs@[1] as nat;
    let l2 = a.limbs@[2] as nat;
    let l3 = a.limbs@[3] as nat;
    assert(l3 <= b - 1);
    assert(l2 + b * l3 <= (b - 1) + b * (b - 1)) by (nonlinear_arith)
        requires
            l2 <= b - 1,
            l3 <= b - 1,
            b > 0,
    ;
    let t2 = l2 + b * l3;
    assert(l1 + b * t2 <= (b - 1) + b * (b * b - 1)) by (nonlinear_arith)
        requires
            l1 <= b - 1,
            t2 <= b * b - 1,
            b > 0,
    ;
    let t1 = l1 + b * t2;
    assert(l0 + b * t1 <= (b - 1) + b * (b * b * b - 1)) by (nonlinear_arith)
        requires
            l0 <= b - 1,
            t1 <= b * b * b - 1,
            b > 0,
    ;
    assert((b - 1) + b * (b * b * b - 1) == b * b * b * b - 1) by (nonlinear_arith);
}

/// Two amounts that stand for the same number are the same amount.
pub proof fn lemma_u256_injective(a: U256, b: U256)
    requires
        a@ == b@,
    ensures
        a == b,
{
    let m = limb_base() as int;
    let a0 = a.limbs@[0] as int;
    let a1 = a.limbs@[1] as int;
    let a2 = a.limbs@[2] as int;
    let a3 = a.limbs@[3] as int;
    let b0 = b.limbs@[0] as int;
    let b1 = b.limbs@[1] as int;
    let b2 = b.limbs@[2] as int;
    let b3 = b.limbs@[3] as int;
    lemma_digit_split(a0, a1 + m * (a2 + m * a3), b0, b1 + m * (b2 + m * b3));
    lemma_digit_split(a1, a2 + m * a3, b1, b2 + m * b3);
    lemma_digit_split(a2, a3, b2, b3);
    assert(a.limbs =~= b.limbs);
}

/// A number written as a low digit below 2^64 and a remainder is so written in
/// one way only.
proof fn lemma_digit_split(lo1: int, hi1: int, lo2: int, hi2: int)
    requires
        0 <= lo1 < limb_base(),
        0 <= lo2 < limb_base(),
        lo1 + limb_base() * hi1 == lo2 + limb_base() * hi2,
    ensures
        lo1 == lo2,
        hi1 == hi2,
{
    let m = limb_base() as int;
    assert(lo1 - lo2 == m * (hi2 - hi1)) by (nonlinear_arith)
        requires
            lo1 + m * hi1 == lo2 + m * hi2,
    ;
    assert(hi2 - hi1 == 0) by (nonlinear_arith)
        requires
            lo1 - lo2 == m * (hi2 - hi1),
            -m < lo1 - lo2 < m,
            m > 0,
    ;
}

impl U256 {
    /// The amount zero.
    pub fn zero() -> (r: U256)
        ensures
            r@ == 0,
    {
        U256 { limbs: [0u64, 0u64, 0u64, 0u64] }
    }

    /// The largest amount, 2^256 - 1.
    pub fn max_value() -> (r: U256)
        ensures
            r@ == u256_modulus() - 1,
    {
        let r = U256 { limbs: [u64::MAX, u64::MAX, u64::MAX, u64::MAX] };
        proof {
            let b = limb_base();
            assert(r@ == (b - 1) + b * ((b - 1) + b * ((b - 1) + b * (b - 1))));
            assert((b - 1) + b * ((b - 1) + b * ((b - 1) + b * (b - 1))) == b * b * b * b - 1)
                by (nonlinear_arith);
        }
        r
    }

    /// The amount that stands for `value`.
    pub fn from_u128(value: u128) -> (r: U256)
        ensures
            r@ == value,
    {
        U256::outside_from_u128(value)
    }

    /// The amount that stands for `value`.
    ///
    /// Calls `From<u128>` of `sails_rs::U256`, which puts the low 64 bits of
    /// `value` into the first limb and the high 64 bits into the second: the
    /// result stands for `value` itself.
    #[verifier::external_body]
    fn outside_from_u128(value: u128) -> (r: U256)
        ensures
            r@ == value,
    {
        U256 { limbs: sails_rs::U256::from(value).0 }
    }

    /// Whether the amount is zero.
    ///
    /// Calls `is_zero` of `sails_rs::U256`, which is true when every limb is zero.
    #[verifier::external_body]
    pub(crate) fn outside_is_zero(&self) -> (r: bool)
        ensures
            r == (self@ == 0),
    {
        sails_rs::U256(self.limbs).is_zero()
    }

    /// The sum of two amounts, where it is an amount.
    ///
    /// Calls `checked_add` of `sails_rs::U256`, which adds limb by limb with
    /// carry and gives `None` when a carry leaves the last limb, that is when the
    /// sum is 2^256 or more.
    #[verifier::external_body]
    pub(crate) fn outside_checked_add(self, other: U256) -> (r: Option<U256>)
        ensures
            match r {
                Some(sum) => sum@ == self@ + other@,
                None => self@ + other@ >= u256_modulus(),
            },
    {
        match sails_rs::U256(self.limbs).checked_add(sails_rs::U256(other.limbs)) {
            Some(v) => Some(U256 { limbs: v.0 }),
            None => None,
        }
    }

    /// The difference of two amounts, where it is an amount.
    ///
    /// Calls `checked_sub` of `sails_rs::U256`, which subtracts limb by limb with
    /// borrow and gives `None` when a borrow leaves the last limb, that is when
    /// `other` is the larger.
    #[verifier::external_body]
    pub(crate) fn outside_checked_sub(self, other: U256) -> (r: Option<U256>)
        ensures
            match r {
                Some(difference) => difference@ == self@ - other@,
                None => self@ < other@,
            },
    {
        match sails_rs::U256(self.limbs).checked_sub(sails_rs::U256(other.limbs)) {
            Some(v) => Some(U256 { limbs: v.0 }),
            None => None,
        }
    }
}

} // verus!
