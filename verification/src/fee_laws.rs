//! Laws of the priority formula: with the fee held fixed, priority never
//! grows when the transaction's weight or length grows, and the formula is
//! total — the zero cases are taken as one, and the product saturates.

use vstd::prelude::*;
use crate::{Balance, Weight};
use crate::state::Config;
use crate::fee::spec_priority;
use vstd::arithmetic::div_mod::lemma_div_is_ordered_by_denominator;
use vstd::arithmetic::mul::{lemma_mul_inequality, lemma_mul_is_commutative};

verus! {

/// Priority is non-increasing in the weight, fee and length held fixed.
pub proof fn lemma_priority_antitone_in_weight(
    cfg: Config,
    len: usize,
    w1: Weight,
    w2: Weight,
    fee: Balance,
)
    requires
        w1 <= w2,
    ensures
        spec_priority(cfg, len, w2, fee) <= spec_priority(cfg, len, w1, fee),
{
    let a1: u64 = if w1 == 0 {
        1u64
    } else {
        w1
    };
    let a2: u64 = if w2 == 0 {
        1u64
    } else {
        w2
    };
    assert(1 <= a1 <= a2);
    lemma_div_is_ordered_by_denominator(cfg.maximum_block_weight as int, a1 as int, a2 as int);
    let l: u64 = if len == 0 {
        1u64
    } else {
        len as u64
    };
    let ws1: u64 = cfg.maximum_block_weight / a1;
    let ws2: u64 = cfg.maximum_block_weight / a2;
    let ls: u64 = (cfg.maximum_block_length as u64) / l;
    let c1: u64 = if ws1 <= ls {
        ws1
    } else {
        ls
    };
    let c2: u64 = if ws2 <= ls {
        ws2
    } else {
        ls
    };
    assert(c2 <= c1);
    lemma_mul_inequality(c2 as int, c1 as int, fee as int);
    lemma_mul_is_commutative(c2 as int, fee as int);
    lemma_mul_is_commutative(c1 as int, fee as int);
    assert((fee as int) * (c2 as int) <= (fee as int) * (c1 as int));
}

/// Priority is non-increasing in the encoded length, fee and weight held
/// fixed.
pub proof fn lemma_priority_antitone_in_length(
    cfg: Config,
    len1: usize,
    len2: usize,
    weight: Weight,
    fee: Balance,
)
    requires
        len1 <= len2,
    ensures
        spec_priority(cfg, len2, weight, fee) <= spec_priority(cfg, len1, weight, fee),
{
    let l1: u64 = if len1 == 0 {
        1u64
    } else {
        len1 as u64
    };
    let l2: u64 = if len2 == 0 {
        1u64
    } else {
        len2 as u64
    };
    assert(1 <= l1 <= l2);
    lemma_div_is_ordered_by_denominator((cfg.maximum_block_length as u64) as int, l1 as int, l2 as int);
    let w: u64 = if weight == 0 {
        1u64
    } else {
        weight
    };
    let ws: u64 = cfg.maximum_block_weight / w;
    let ls1: u64 = (cfg.maximum_block_length as u64) / l1;
    let ls2: u64 = (cfg.maximum_block_length as u64) / l2;
    let c1: u64 = if ws <= ls1 {
        ws
    } else {
        ls1
    };
    let c2: u64 = if ws <= ls2 {
        ws
    } else {
        ls2
    };
    assert(c2 <= c1);
    lemma_mul_inequality(c2 as int, c1 as int, fee as int);
    lemma_mul_is_commutative(c2 as int, fee as int);
    lemma_mul_is_commutative(c1 as int, fee as int);
    assert((fee as int) * (c2 as int) <= (fee as int) * (c1 as int));
}

/// The formula never divides by zero: a zero weight or length is taken as
/// one.  Together with the clamp in `spec_priority` this is why the formula
/// saturates instead of failing at either edge.
pub proof fn lemma_priority_zero_treated_as_one(
    cfg: Config,
    len: usize,
    weight: Weight,
    fee: Balance,
)
    ensures
        spec_priority(cfg, len, 0, fee) == spec_priority(cfg, len, 1, fee),
        spec_priority(cfg, 0, weight, fee) == spec_priority(cfg, 1, weight, fee),
{
}

} // verus!
