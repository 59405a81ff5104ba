//! Progress on a scale of hundredths of a percent.

use vstd::prelude::*;

verus! {

/// How far an operation has come, in hundredths of a percent: `0` is nothing,
/// `10_000` is all of it.
#[derive(Clone, Copy, Debug, PartialEq, Eq, Structural)]
pub struct Percent {
    pub hundredths: u32,
}

/// The share `done / total` of a span of `span` whole percent that starts at
/// `base` whole percent, in hundredths and rounded down. Work that overshoots
/// its announced total counts as complete, and so does work with nothing to do.
pub open spec fn scaled(base: nat, span: nat, done: nat, total: nat) -> nat {
    if total == 0 || done >= total {
        100 * (base + span)
    } else {
        100 * base + (100 * span * done) / total
    }
}

/// A larger share never maps to a smaller percentage, and every share stays
/// within the span.
pub proof fn lemma_scaled_monotone(base: nat, span: nat, a: nat, b: nat, total: nat)
    requires
        a <= b,
    ensures
        scaled(base, span, a, total) <= scaled(base, span, b, total),
        100 * base <= scaled(base, span, a, total) <= 100 * (base + span),
{
    if total > 0 && a < total {
        assert((100 * span * a) / total <= 100 * span) by (nonlinear_arith)
            requires
                a < total,
                total > 0,
        ;
        assert(0 <= (100 * span * a) / total) by (nonlinear_arith)
            requires
                total > 0,
        ;
        if b < total {
            assert((100 * span * a) / total <= (100 * span * b) / total) by (nonlinear_arith)
                requires
                    a <= b,
                    total > 0,
            ;
        }
    }
}

impl Percent {
    /// A whole number of percent.
    pub fn whole(percent: u32) -> (p: Percent)
        requires
            percent <= 100,
        ensures
            p.hundredths == 100 * percent,
    {
        Percent { hundredths: 100 * percent }
    }

    /// The percentage reached when `done` of `total` units of the span from
    /// `base` to `base + span` are behind us.
    pub fn scaled(base: u32, span: u32, done: usize, total: usize) -> (p: Percent)
        requires
            base + span <= 100,
        ensures
            p.hundredths == scaled(base as nat, span as nat, done as nat, total as nat),
            p.hundredths <= 10_000,
    {
        proof {
            lemma_scaled_monotone(base as nat, span as nat, done as nat, done as nat, total as nat);
        }
        if total == 0 || done >= total {
            Percent { hundredths: 100 * (base + span) }
        } else {
            let weight: u128 = 100 * (span as u128);
            assert(weight * (done as u128) <= 10_000 * 0xFFFF_FFFF_FFFF_FFFF) by (nonlinear_arith)
                requires
                    weight <= 10_000,
                    done <= 0xFFFF_FFFF_FFFF_FFFF,
            ;
            let part: u128 = (weight * (done as u128)) / (total as u128);
            assert(part <= 100 * span) by (nonlinear_arith)
                requires
                    part == (100 * span * done) / (total as int),
                    done < total,
                    total > 0,
            ;
            Percent { hundredths: 100 * base + (part as u32) }
        }
    }
}

} // verus!
