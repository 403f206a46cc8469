//! Elements of the Pallas base field, held as their canonical little-endian
//! bytes. The arithmetic itself is done by `halo2_proofs::pasta::Fp`.

use halo2_proofs::pasta::group::ff::PrimeField;
use halo2_proofs::pasta::Fp;
use vstd::prelude::*;

verus! {

/// The prime `p` of the Pallas base field:
/// `0x40000000000000000000000000000000224698fc094cf91b992d30ed00000001`.
pub open spec fn modulus() -> nat {
    0x4000_0000_0000_0000 * 0x1_0000_0000_0000_0000 * 0x1_0000_0000_0000_0000
        * 0x1_0000_0000_0000_0000 + 0x2246_98fc_094c_f91b_992d_30ed_0000_0001
}

/// The number that a little-endian byte string denotes.
pub open spec fn le_value(s: Seq<u8>) -> nat
    decreases s.len(),
{
    if s.len() == 0 {
        0
    } else {
        s[0] as nat + 256 * le_value(s.drop_first())
    }
}

/// Field addition, on canonical values.
pub open spec fn field_add(a: nat, b: nat) -> nat {
    (a + b) % modulus()
}

/// Field subtraction, on canonical values: it wraps modulo `p`.
pub open spec fn field_sub(a: nat, b: nat) -> nat {
    ((a + modulus()) - b) as nat % modulus()
}

/// Field multiplication, on canonical values.
pub open spec fn field_mul(a: nat, b: nat) -> nat {
    (a * b) % modulus()
}

/// An element of the field, as its 32 canonical little-endian bytes.
#[derive(Debug)]
pub struct FieldElement {
    repr: [u8; 32],
}

impl View for FieldElement {
    type V = nat;

    /// The element as a number in `0..p`.
    closed spec fn view(&self) -> nat {
        le_value(self.repr@)
    }
}

/// Two byte strings of one length that denote the same number are equal.
proof fn lemma_le_value_injective(s: Seq<u8>, t: Seq<u8>)
    requires
        s.len() == t.len(),
        le_value(s) == le_value(t),
    ensures
        s == t,
    decreases s.len(),
{
    if s.len() > 0 {
        let x = le_value(s.drop_first());
        let y = le_value(t.drop_first());
        let s0 = s[0] as int;
        let t0 = t[0] as int;
        assert(s0 == t0 && x == y) by (nonlinear_arith)
            requires
                s0 + 256 * x == t0 + 256 * y,
                0 <= s0 < 256,
                0 <= t0 < 256,
        ;
        lemma_le_value_injective(s.drop_first(), t.drop_first());
        assert forall|i: int| 0 <= i < s.len() implies s[i] == t[i] by {
            if i > 0 {
                assert(s[i] == s.drop_first()[i - 1]);
                assert(t[i] == t.drop_first()[i - 1]);
            }
        }
        assert(s =~= t);
    }
}

/// The canonical element whose value is `n`.
pub closed spec fn element_of(n: nat) -> FieldElement {
    choose|f: FieldElement| f.wf() && f@ == n
}

/// A canonical element is the one `element_of` picks for its value.
pub proof fn lemma_element_of(f: FieldElement)
    requires
        f.wf(),
    ensures
        element_of(f@) == f,
{
    let g = element_of(f@);
    assert(g.wf() && g@ == f@);
    lemma_le_value_injective(g.repr@, f.repr@);
    assert(g.repr =~= f.repr);
}

/// Relies on `Fp::from(u64)` and `Fp::to_repr`: the canonical bytes of the
/// element whose value is `n`.
#[verifier::external_body]
fn fp_from_u64(n: u64) -> (r: [u8; 32])
    ensures
        le_value(r@) == n as nat,
{
    Fp::from(n).to_repr()
}

/// Relies on `Fp`'s `+` on canonical representations (`Fp::from_repr`,
/// `Fp::to_repr`): addition modulo `p`.
#[verifier::external_body]
fn fp_add(a: &[u8; 32], b: &[u8; 32]) -> (r: [u8; 32])
    requires
        le_value(a@) < modulus(),
        le_value(b@) < modulus(),
    ensures
        le_value(r@) == field_add(le_value(a@), le_value(b@)),
{
    (Fp::from_repr(*a).unwrap() + Fp::from_repr(*b).unwrap()).to_repr()
}

/// Relies on `Fp`'s `-` on canonical representations (`Fp::from_repr`,
/// `Fp::to_repr`): subtraction modulo `p`.
#[verifier::external_body]
fn fp_sub(a: &[u8; 32], b: &[u8; 32]) -> (r: [u8; 32])
    requires
        le_value(a@) < modulus(),
        le_value(b@) < modulus(),
    ensures
        le_value(r@) == field_sub(le_value(a@), le_value(b@)),
{
    (Fp::from_repr(*a).unwrap() - Fp::from_repr(*b).unwrap()).to_repr()
}

/// Relies on `Fp`'s `*` on canonical representations (`Fp::from_repr`,
/// `Fp::to_repr`): multiplication modulo `p`.
#[verifier::external_body]
fn fp_mul(a: &[u8; 32], b: &[u8; 32]) -> (r: [u8; 32])
    requires
        le_value(a@) < modulus(),
        le_value(b@) < modulus(),
    ensures
        le_value(r@) == field_mul(le_value(a@), le_value(b@)),
{
    (Fp::from_repr(*a).unwrap() * Fp::from_repr(*b).unwrap()).to_repr()
}

impl FieldElement {
    /// Every element holds a canonical representation.
    pub open spec fn wf(&self) -> bool {
        self@ < modulus()
    }

    /// The element whose value is `n`.
    pub fn from_u64(n: u64) -> (r: FieldElement)
        ensures
            r.wf(),
            r@ == n as nat,
    {
        let repr = fp_from_u64(n);
        assert(n < modulus());
        FieldElement { repr }
    }

    /// The additive identity.
    pub fn zero() -> (r: FieldElement)
        ensures
            r.wf(),
            r@ == 0,
    {
        FieldElement::from_u64(0)
    }

    /// The multiplicative identity.
    pub fn one() -> (r: FieldElement)
        ensures
            r.wf(),
            r@ == 1,
    {
        FieldElement::from_u64(1)
    }

    /// `self + o` in the field.
    pub fn add(&self, o: &FieldElement) -> (r: FieldElement)
        requires
            self.wf(),
            o.wf(),
        ensures
            r.wf(),
            r@ == field_add(self@, o@),
    {
        FieldElement { repr: fp_add(&self.repr, &o.repr) }
    }

    /// `self - o` in the field: below zero it wraps modulo `p`.
    pub fn sub(&self, o: &FieldElement) -> (r: FieldElement)
        requires
            self.wf(),
            o.wf(),
        ensures
            r.wf(),
            r@ == field_sub(self@, o@),
    {
        FieldElement { repr: fp_sub(&self.repr, &o.repr) }
    }

    /// `self * o` in the field.
    pub fn mul(&self, o: &FieldElement) -> (r: FieldElement)
        requires
            self.wf(),
            o.wf(),
        ensures
            r.wf(),
            r@ == field_mul(self@, o@),
    {
        FieldElement { repr: fp_mul(&self.repr, &o.repr) }
    }

    /// The canonical little-endian bytes of the element.
    pub fn to_le_bytes(&self) -> (r: [u8; 32])
        ensures
            le_value(r@) == self@,
    {
        self.repr
    }

    /// Whether two elements are the same element of the field.
    pub fn equals(&self, o: &FieldElement) -> (r: bool)
        ensures
            r == (self@ == o@),
    {
        let mut i: usize = 0;
        while i < 32
            invariant
                0 <= i <= 32,
                forall|j: int| 0 <= j < i ==> self.repr@[j] == o.repr@[j],
            decreases 32 - i,
        {
            if self.repr[i] != o.repr[i] {
                assert(self.repr@ != o.repr@);
                proof {
                    if self@ == o@ {
                        lemma_le_value_injective(self.repr@, o.repr@);
                    }
                }
                return false;
            }
            i = i + 1;
        }
        assert(self.repr@ =~= o.repr@);
        true
    }
}

impl PartialEq for FieldElement {
    fn eq(&self, o: &FieldElement) -> (r: bool) {
        self.equals(o)
    }
}

impl vstd::std_specs::cmp::PartialEqSpecImpl for FieldElement {
    open spec fn obeys_eq_spec() -> bool {
        true
    }

    open spec fn eq_spec(&self, o: &FieldElement) -> bool {
        self@ == o@
    }
}

impl Eq for FieldElement {}

impl Clone for FieldElement {
    fn clone(&self) -> (r: FieldElement)
        ensures
            r == *self,
    {
        FieldElement { repr: self.repr }
    }
}

} // verus!
