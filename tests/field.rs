use zk_calculator::field::FieldElement;

#[test]
fn small_values_add_sub_and_mul_exactly() {
    let a = FieldElement::from_u64(20);
    let b = FieldElement::from_u64(22);
    assert_eq!(a.add(&b), FieldElement::from_u64(42));
    assert_eq!(b.sub(&a), FieldElement::from_u64(2));
    assert_eq!(a.mul(&b), FieldElement::from_u64(440));
    assert!(a.equals(&FieldElement::from_u64(20)));
    assert!(!a.equals(&b));
}

#[test]
fn large_values_do_not_wrap_below_the_prime() {
    let m = FieldElement::from_u64(u64::MAX);
    let sum = m.add(&m);
    assert_eq!(sum.sub(&m), m);
    let square = m.mul(&m);
    assert_ne!(square, FieldElement::one());
    assert_eq!(FieldElement::zero().sub(&FieldElement::one()).mul(&FieldElement::zero()), FieldElement::zero());
}

#[test]
fn zero_minus_one_is_the_largest_element() {
    let minus_one = FieldElement::zero().sub(&FieldElement::one());
    assert_ne!(minus_one, FieldElement::zero());
    assert_eq!(minus_one.mul(&minus_one), FieldElement::one());
    assert_eq!(minus_one.add(&FieldElement::one()), FieldElement::zero());
}
