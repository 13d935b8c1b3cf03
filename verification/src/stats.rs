use vstd::prelude::*;

use crate::rational::Rational;

verus! {

/// The sum of the elements of a sequence of 32-bit integers.
pub open spec fn seq_sum(s: Seq<i32>) -> int
    decreases s.len(),
{
    if s.len() == 0 {
        0
    } else {
        seq_sum(s.drop_last()) + s.last()
    }
}

/// The greatest element of a non-empty sequence of 32-bit integers.
pub open spec fn seq_max(s: Seq<i32>) -> int
    recommends
        s.len() > 0,
    decreases s.len(),
{
    if s.len() <= 1 {
        s[0] as int
    } else if s.last() > seq_max(s.drop_last()) {
        s.last() as int
    } else {
        seq_max(s.drop_last())
    }
}

/// The least element of a non-empty sequence of 32-bit integers.
pub open spec fn seq_min(s: Seq<i32>) -> int
    recommends
        s.len() > 0,
    decreases s.len(),
{
    if s.len() <= 1 {
        s[0] as int
    } else if s.last() < seq_min(s.drop_last()) {
        s.last() as int
    } else {
        seq_min(s.drop_last())
    }
}

/// What a correct aggregation of `s` looks like: `max` is the greatest
/// element, `min` the least, and `mean` is exactly the sum of the elements
/// over their count.
pub open spec fn aggregate_ok(s: Seq<i32>, max: i32, min: i32, mean: Rational) -> bool {
    &&& max == seq_max(s)
    &&& min == seq_min(s)
    &&& mean.num == seq_sum(s)
    &&& mean.den == s.len()
}

/// Computes the greatest element, the least element and the exact arithmetic
/// mean of a non-empty sequence of integers in one forward pass.
pub fn max_min_mean(numbers: &Vec<i32>) -> (r: (i32, i32, Rational))
    requires
        numbers@.len() >= 1,
        numbers@.len() < 0x1_0000_0000,
    ensures
        aggregate_ok(numbers@, r.0, r.1, r.2),
        r.2.wf(),
{
    let ghost s = numbers@;
    let n: usize = numbers.len();
    let first: i32 = numbers[0];
    let mut max: i32 = first;
    let mut min: i32 = first;
    let mut sum: i64 = 0;
    let mut i: usize = 0;
    while i < n
        invariant
            n == s.len(),
            1 <= n < 0x1_0000_0000,
            s == numbers@,
            i <= n,
            max == seq_max(s.take(if i == 0 { 1int } else { i as int })),
            min == seq_min(s.take(if i == 0 { 1int } else { i as int })),
            sum == seq_sum(s.take(i as int)),
            -(i as int) * 0x8000_0000 <= sum <= (i as int) * 0x8000_0000,
        decreases n - i,
    {
        let v: i32 = numbers[i];
        proof {
            assert(s.take(i + 1).drop_last() =~= s.take(i as int));
            assert(s.take(i + 1).last() == s[i as int]);
            if i == 0 {
                assert(s.take(1int)[0] == s[0]);
            }
        }
        if v > max {
            max = v;
        }
        if v < min {
            min = v;
        }
        sum = sum + v as i64;
        i = i + 1;
    }
    proof {
        assert(s.take(n as int) =~= s);
    }
    let mean = Rational::new(sum, n as i64);
    (max, min, mean)
}

/// Aggregation is a pure function of its input: two result triples that both
/// satisfy the aggregate contract for the same sequence are identical, so
/// computing it twice over the same unmodified sequence yields identical
/// results.
pub proof fn lemma_aggregate_deterministic(
    s: Seq<i32>,
    a: (i32, i32, Rational),
    b: (i32, i32, Rational),
)
    requires
        aggregate_ok(s, a.0, a.1, a.2),
        aggregate_ok(s, b.0, b.1, b.2),
    ensures
        a == b,
{
}

/// A one-element sequence aggregates to that element alone: it is the
/// greatest element, the least element, and the mean denotes exactly that
/// integer.
pub proof fn lemma_aggregate_singleton(x: i32, max: i32, min: i32, mean: Rational)
    requires
        aggregate_ok(seq![x], max, min, mean),
    ensures
        max == x,
        min == x,
        mean.is_integer(x as int),
{
    let s = seq![x];
    assert(s.len() == 1);
    assert(s[0] == x);
    assert(s.drop_last() =~= Seq::<i32>::empty());
    assert(seq_sum(Seq::<i32>::empty()) == 0);
    assert(s.last() == x);
    assert(seq_sum(s) == seq_sum(s.drop_last()) + s.last());
    assert(seq_sum(s) == x);
    assert(mean.den == 1);
}

/// The exact arithmetic mean of three rational values, over the common
/// denominator: `(a + b + c) / 3`.
pub fn mean_of_three(a: Rational, b: Rational, c: Rational) -> (r: Rational)
    requires
        a.wf(),
        b.wf(),
        c.wf(),
        i64::MIN <= a.num * b.den <= i64::MAX,
        i64::MIN <= (a.num * b.den) * c.den <= i64::MAX,
        i64::MIN <= b.num * a.den <= i64::MAX,
        i64::MIN <= (b.num * a.den) * c.den <= i64::MAX,
        i64::MIN <= c.num * a.den <= i64::MAX,
        i64::MIN <= (c.num * a.den) * b.den <= i64::MAX,
        i64::MIN <= (a.num * b.den) * c.den + (b.num * a.den) * c.den <= i64::MAX,
        i64::MIN <= (a.num * b.den) * c.den + (b.num * a.den) * c.den + (c.num * a.den) * b.den
            <= i64::MAX,
        a.den * b.den <= i64::MAX,
        (a.den * b.den) * c.den <= i64::MAX,
        3 * ((a.den * b.den) * c.den) <= i64::MAX,
    ensures
        r.wf(),
        r.num == (a.num * b.den) * c.den + (b.num * a.den) * c.den + (c.num * a.den) * b.den,
        r.den == 3 * ((a.den * b.den) * c.den),
{
    proof {
        assert(a.den * b.den >= 1) by (nonlinear_arith)
            requires
                a.den >= 1,
                b.den >= 1,
        ;
        assert((a.den * b.den) * c.den >= 1) by (nonlinear_arith)
            requires
                a.den * b.den >= 1,
                c.den >= 1,
        ;
    }
    let ta: i64 = (a.num * b.den) * c.den;
    let tb: i64 = (b.num * a.den) * c.den;
    let tc: i64 = (c.num * a.den) * b.den;
    let num: i64 = ta + tb + tc;
    let den: i64 = 3 * ((a.den * b.den) * c.den);
    Rational::new(num, den)
}

} // verus!
