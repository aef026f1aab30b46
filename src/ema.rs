//! Exponential moving average over non-negative readings.
//!
//! Readings are integers in a unit the caller picks (hundredths of a percent,
//! ten-thousandths of a minute, ...). The weight `alpha` is the fraction
//! `num / den`, with `0 < num <= den`; a smoothed value is rounded down.
use vstd::prelude::*;

verus! {

/// `alpha * prev + (1 - alpha) * new` with `alpha = num / den`, rounded down.
pub open spec fn blend(num: nat, den: nat, prev: nat, new: nat) -> nat
    recommends
        0 < num <= den,
{
    ((num * prev + (den - num) * new) / den as int) as nat
}

/// What one push returns, from the filter's current value.
pub open spec fn push_result(num: nat, den: nat, current: Option<u64>, new: u64) -> nat {
    match current {
        Some(c) => blend(num, den, c as nat, new as nat),
        None => new as nat,
    }
}

/// The outputs of pushing `vs` in turn into a filter whose current value is
/// `start`.
pub open spec fn outputs(num: nat, den: nat, start: Option<u64>, vs: Seq<u64>) -> Seq<nat>
    decreases vs.len(),
{
    if vs.len() == 0 {
        Seq::empty()
    } else {
        let r = push_result(num, den, start, vs[0]);
        seq![r] + outputs(num, den, Some(r as u64), vs.drop_first())
    }
}

/// An exponential moving average filter.
pub struct Ema {
    current: Option<u64>,
    alpha_num: u64,
    alpha_den: u64,
}

impl Ema {
    /// The value that the next push blends with; `None` when fresh or reset.
    pub closed spec fn current(&self) -> Option<u64> {
        self.current
    }

    /// Numerator of the weight given to history.
    pub closed spec fn num(&self) -> nat {
        self.alpha_num as nat
    }

    /// Denominator of the weight given to history.
    pub closed spec fn den(&self) -> nat {
        self.alpha_den as nat
    }

    pub open spec fn wf(&self) -> bool {
        0 < self.num() <= self.den()
    }

    /// A fresh filter with weight `alpha_num / alpha_den` on history.
    pub fn new(alpha_num: u64, alpha_den: u64) -> (r: Ema)
        requires
            0 < alpha_num <= alpha_den,
        ensures
            r.wf(),
            r.current() is None,
            r.num() == alpha_num,
            r.den() == alpha_den,
    {
        Ema { current: None, alpha_num, alpha_den }
    }

    /// Feeds one reading: the first after creation or a reset is returned
    /// unchanged, later ones are blended with the current value.
    pub fn push(&mut self, new: u64) -> (r: u64)
        requires
            old(self).wf(),
        ensures
            final(self).wf(),
            r as nat == push_result(old(self).num(), old(self).den(), old(self).current(), new),
            final(self).current() == Some(r),
            final(self).num() == old(self).num(),
            final(self).den() == old(self).den(),
    {
        match self.current {
            Some(c) => {
                let num = self.alpha_num as u128;
                let den = self.alpha_den as u128;
                proof {
                    lemma_blend_bounds(num as nat, den as nat, c as nat, new as nat);
                }
                let mixed = num * (c as u128) + (den - num) * (new as u128);
                let r = (mixed / den) as u64;
                self.current = Some(r);
                r
            },
            None => {
                self.current = Some(new);
                new
            },
        }
    }

    /// Forgets the current value, so that the next push re-seeds the filter.
    pub fn reset(&mut self)
        requires
            old(self).wf(),
        ensures
            final(self).wf(),
            final(self).current() is None,
            final(self).num() == old(self).num(),
            final(self).den() == old(self).den(),
    {
        self.current = None;
    }
}

/// The weighted sum stays below `den * 2^64` and the blend fits in a `u64`.
proof fn lemma_blend_bounds(num: nat, den: nat, prev: nat, new: nat)
    requires
        0 < num <= den <= u64::MAX,
        prev <= u64::MAX,
        new <= u64::MAX,
    ensures
        num * prev + (den - num) * new <= den * u64::MAX,
        den * u64::MAX <= u128::MAX,
        blend(num, den, prev, new) <= u64::MAX,
{
    let m = u64::MAX as nat;
    assert(num * prev <= num * m) by (nonlinear_arith)
        requires prev <= m;
    assert((den - num) * new <= (den - num) * m) by (nonlinear_arith)
        requires new <= m, num <= den;
    assert(num * m + (den - num) * m == den * m) by (nonlinear_arith)
        requires num <= den;
    assert(den * m <= m * m) by (nonlinear_arith)
        requires den <= m;
    let s = num * prev + (den - num) * new;
    assert(s / (den as int) <= m) by (nonlinear_arith)
        requires s <= den * m, den > 0;
}

/// The first output of a fresh filter is the first reading; every later
/// output is `alpha` times the previous output plus `1 - alpha` times the new
/// reading.
pub proof fn law_fresh_outputs(num: nat, den: nat, vs: Seq<u64>)
    requires
        0 < num <= den <= u64::MAX,
    ensures
        outputs(num, den, None, vs).len() == vs.len(),
        vs.len() > 0 ==> outputs(num, den, None, vs)[0] == vs[0] as nat,
        forall|i: int|
            0 < i < vs.len() ==> #[trigger] outputs(num, den, None, vs)[i] == blend(
                num,
                den,
                outputs(num, den, None, vs)[i - 1],
                vs[i] as nat,
            ),
{
    lemma_outputs_blend(num, den, None, vs);
}

proof fn lemma_outputs_blend(num: nat, den: nat, start: Option<u64>, vs: Seq<u64>)
    requires
        0 < num <= den <= u64::MAX,
    ensures
        outputs(num, den, start, vs).len() == vs.len(),
        forall|i: int| 0 <= i < vs.len() ==> #[trigger] outputs(num, den, start, vs)[i] <= u64::MAX,
        forall|i: int|
            0 < i < vs.len() ==> #[trigger] outputs(num, den, start, vs)[i] == blend(
                num,
                den,
                outputs(num, den, start, vs)[i - 1],
                vs[i] as nat,
            ),
    decreases vs.len(),
{
    if vs.len() > 0 {
        let r = push_result(num, den, start, vs[0]);
        if let Some(c) = start {
            lemma_blend_bounds(num, den, c as nat, vs[0] as nat);
        }
        let rest = vs.drop_first();
        lemma_outputs_blend(num, den, Some(r as u64), rest);
        let out = outputs(num, den, start, vs);
        let tail = outputs(num, den, Some(r as u64), rest);
        assert(out == seq![r] + tail);
        assert forall|i: int| 0 <= i < vs.len() implies #[trigger] out[i] <= u64::MAX by {
            if i > 0 {
                assert(out[i] == tail[i - 1]);
            }
        }
        assert forall|i: int| 0 < i < vs.len() implies #[trigger] out[i] == blend(
            num,
            den,
            out[i - 1],
            vs[i] as nat,
        ) by {
            if i == 1 {
                assert(tail[0] == push_result(num, den, Some(r as u64), rest[0]));
                assert(rest[0] == vs[1]);
            } else {
                assert(out[i] == tail[i - 1]);
                assert(out[i - 1] == tail[i - 2]);
                assert(rest[i - 1] == vs[i]);
            }
        }
    }
}

/// After a reset, a push returns the pushed reading unchanged, whatever the
/// filter held before: `after` is any filter in the state that `reset` leaves
/// `before` in.
pub proof fn law_reset_then_push(before: Ema, after: Ema, new: u64)
    requires
        before.wf(),
        after.wf(),
        after.current() is None,
        after.num() == before.num(),
        after.den() == before.den(),
    ensures
        push_result(after.num(), after.den(), after.current(), new) == new as nat,
{
}

} // verus!
