//! Algebraic laws of `Complex<i64>`, stated over the spec functions that the operators'
//! contracts use. A law about values that overflow on the way holds where every step of
//! both sides stays within `i64`.
use crate::complex::Complex;
use vstd::arithmetic::div_mod::{lemma_div_multiples_vanish, lemma_fundamental_div_mod};
use vstd::arithmetic::mul::{
    lemma_mul_equality_converse, lemma_mul_is_associative, lemma_mul_is_distributive_add, lemma_mul_is_distributive_add_other_way,
    lemma_mul_is_distributive_sub, lemma_mul_is_distributive_sub_other_way,
};
use vstd::prelude::*;
use vstd::std_specs::ops::{AddSpec, DivSpec, NegSpec};

verus! {

/// Adding zero leaves a complex number unchanged (and never overflows).
pub proof fn lemma_add_zero(a: Complex<i64>)
    ensures
        a.add_req(Complex { re: 0i64, im: 0i64 }),
        a.sum(Complex { re: 0i64, im: 0i64 }) == a,
{
}

/// Addition is commutative, and so is its overflow condition.
pub proof fn lemma_add_commutative(a: Complex<i64>, b: Complex<i64>)
    ensures
        a.add_req(b) == b.add_req(a),
        a.sum(b) == b.sum(a),
{
}

/// Multiplication is commutative, and so is its overflow condition.
pub proof fn lemma_mul_commutative(a: Complex<i64>, b: Complex<i64>)
    ensures
        a.product_req(b) == b.product_req(a),
        a.product(b) == b.product(a),
{
    assert(a.re * b.re == b.re * a.re) by (nonlinear_arith);
    assert(a.im * b.im == b.im * a.im) by (nonlinear_arith);
    assert(a.re * b.im == b.im * a.re) by (nonlinear_arith);
    assert(a.im * b.re == b.re * a.im) by (nonlinear_arith);
}

/// `(a + b) + c == a + (b + c)` where neither side overflows.
pub proof fn lemma_add_associative(a: Complex<i64>, b: Complex<i64>, c: Complex<i64>)
    requires
        a.add_req(b),
        a.sum(b).add_req(c),
        b.add_req(c),
        a.add_req(b.sum(c)),
    ensures
        a.sum(b).sum(c) == a.sum(b.sum(c)),
{
}

/// Conjugating twice gives back the original number.
pub proof fn lemma_conj_involution(a: Complex<i64>)
    requires
        a.im.neg_req(),
    ensures
        a.conj_spec().im.neg_req(),
        a.conj_spec().conj_spec() == a,
{
}

/// `(a * b) * c == a * (b * c)` where neither side overflows.
pub proof fn lemma_mul_associative(a: Complex<i64>, b: Complex<i64>, c: Complex<i64>)
    requires
        a.product_req(b),
        a.product(b).product_req(c),
        b.product_req(c),
        a.product_req(b.product(c)),
    ensures
        a.product(b).product(c) == a.product(b.product(c)),
{
    lemma_product_associative_int(
        a.re as int,
        a.im as int,
        b.re as int,
        b.im as int,
        c.re as int,
        c.im as int,
    );
}

/// Associativity of the complex product, on integer components.
proof fn lemma_product_associative_int(ar: int, ai: int, br: int, bi: int, cr: int, ci: int)
    ensures
        (ar * br - ai * bi) * cr - (ar * bi + ai * br) * ci == ar * (br * cr - bi * ci) - ai * (br
            * ci + bi * cr),
        (ar * br - ai * bi) * ci + (ar * bi + ai * br) * cr == ar * (br * ci + bi * cr) + ai * (br
            * cr - bi * ci),
{
    lemma_mul_is_distributive_sub_other_way(cr, ar * br, ai * bi);
    lemma_mul_is_distributive_add_other_way(ci, ar * bi, ai * br);
    lemma_mul_is_distributive_sub_other_way(ci, ar * br, ai * bi);
    lemma_mul_is_distributive_add_other_way(cr, ar * bi, ai * br);
    lemma_mul_is_distributive_sub(ar, br * cr, bi * ci);
    lemma_mul_is_distributive_add(ai, br * ci, bi * cr);
    lemma_mul_is_distributive_add(ar, br * ci, bi * cr);
    lemma_mul_is_distributive_sub(ai, br * cr, bi * ci);
    lemma_mul_is_associative(ar, br, cr);
    lemma_mul_is_associative(ai, bi, cr);
    lemma_mul_is_associative(ar, bi, ci);
    lemma_mul_is_associative(ai, br, ci);
    lemma_mul_is_associative(ar, br, ci);
    lemma_mul_is_associative(ai, bi, ci);
    lemma_mul_is_associative(ar, bi, cr);
    lemma_mul_is_associative(ai, br, cr);
}
/// `(a / b) * b == a` where `b` is non-zero, the integer divisions in `a / b` are exact,
/// and no step overflows. (An inexact integer division truncates, and then the law fails.)
pub proof fn lemma_div_mul_inverse(a: Complex<i64>, b: Complex<i64>)
    requires
        a.quotient_req(b),
        a.quotient_numerator(b).re as int % b.norm_sqr() as int == 0,
        a.quotient_numerator(b).im as int % b.norm_sqr() as int == 0,
        a.quotient(b).product_req(b),
    ensures
        a.quotient(b).product(b) == a,
{
    let d = b.norm_sqr();
    let n = a.quotient_numerator(b);
    let q = a.quotient(b);
    assert(d as int == b.re * b.re + b.im * b.im);
    assert(d > 0) by {
        assert(b.re * b.re >= 0) by (nonlinear_arith);
        assert(b.im * b.im >= 0) by (nonlinear_arith);
    }
    lemma_exact_div(n.re, d);
    lemma_exact_div(n.im, d);
    lemma_div_mul_inverse_int(a.re as int, a.im as int, b.re as int, b.im as int, q.re as int, q.im as int);
}

/// An exact division by a positive `i64` multiplies back to the dividend.
proof fn lemma_exact_div(x: i64, d: i64)
    requires
        d > 0,
        x as int % d as int == 0,
    ensures
        x.div_spec(d) * d == x,
{
    let k = x as int / d as int;
    lemma_fundamental_div_mod(x as int, d as int);
    assert(x == d * k);
    if x >= 0 {
        assert(0 <= k <= x) by (nonlinear_arith)
            requires
                x == d * k,
                d > 0,
                x >= 0,
        ;
    } else {
        assert(x <= k < 0) by (nonlinear_arith)
            requires
                x == d * k,
                d > 0,
                x < 0,
        ;
        assert(-x == d * (-k)) by (nonlinear_arith)
            requires
                x == d * k,
        ;
        lemma_div_multiples_vanish(-k, d as int);
    }
    assert(x.div_spec(d) == k);
    assert(k * d == d * k) by (nonlinear_arith);
}

/// `(n / d) * b == a` on integer components, given exact quotients `q`.
proof fn lemma_div_mul_inverse_int(ar: int, ai: int, br: int, bi: int, qr: int, qi: int)
    requires
        br * br + bi * bi > 0,
        qr * (br * br + bi * bi) == ar * br + ai * bi,
        qi * (br * br + bi * bi) == ai * br - ar * bi,
    ensures
        qr * br - qi * bi == ar,
        qr * bi + qi * br == ai,
{
    let d = br * br + bi * bi;
    assert((qr * br - qi * bi) * d == ar * d) by (nonlinear_arith)
        requires
            d == br * br + bi * bi,
            qr * d == ar * br + ai * bi,
            qi * d == ai * br - ar * bi,
    ;
    assert((qr * bi + qi * br) * d == ai * d) by (nonlinear_arith)
        requires
            d == br * br + bi * bi,
            qr * d == ar * br + ai * bi,
            qi * d == ai * br - ar * bi,
    ;
    lemma_mul_equality_converse(d, qr * br - qi * bi, ar);
    lemma_mul_equality_converse(d, qr * bi + qi * br, ai);
}

} // verus!
