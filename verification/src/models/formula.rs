//! Conversion formulas as data: a formula is a list of arithmetic steps with
//! decimal constants. Its meaning is a function on the real numbers; the
//! serving layer carries the steps out in floating point.
use vstd::prelude::*;

verus! {

/// A decimal constant held exactly: `mantissa / 10^scale`, that is, the
/// mantissa with its last `scale` digits behind the decimal point.
#[derive(Clone, Copy, Debug, PartialEq, Eq, Structural)]
pub struct Decimal {
    pub mantissa: i64,
    pub scale: u32,
}

impl Decimal {
    /// The number that the constant stands for.
    pub open spec fn value(self) -> real {
        (self.mantissa as real) / pow10(self.scale as nat)
    }

    /// The constant `mantissa / 10^scale`.
    pub fn new(mantissa: i64, scale: u32) -> (d: Decimal)
        ensures
            d == (Decimal { mantissa, scale }),
    {
        Decimal { mantissa, scale }
    }

    /// Whether the constant is zero.
    pub fn is_zero(&self) -> (zero: bool)
        ensures
            zero == (self.mantissa == 0),
            zero == (self.value() == 0 as real),
    {
        proof {
            lemma_value_zero(*self);
        }
        self.mantissa == 0
    }
}

/// Ten to the power `n`.
pub open spec fn pow10(n: nat) -> real
    decreases n,
{
    if n == 0 {
        1 as real
    } else {
        pow10((n - 1) as nat) * (10 as real)
    }
}

/// One arithmetic step of a conversion formula.
#[derive(Clone, Copy, Debug, PartialEq, Eq, Structural)]
pub enum Step {
    /// Add the constant.
    Plus(Decimal),
    /// Subtract the constant.
    Minus(Decimal),
    /// Multiply by the constant.
    Times(Decimal),
    /// Divide by the constant.
    Over(Decimal),
}

impl Step {
    /// The step applied to `x`.
    pub open spec fn run(self, x: real) -> real {
        match self {
            Step::Plus(c) => x + c.value(),
            Step::Minus(c) => x - c.value(),
            Step::Times(c) => x * c.value(),
            Step::Over(c) => x / c.value(),
        }
    }

    /// The step that takes this step's result back to its input.
    pub open spec fn undo(self) -> Step {
        match self {
            Step::Plus(c) => Step::Minus(c),
            Step::Minus(c) => Step::Plus(c),
            Step::Times(c) => Step::Over(c),
            Step::Over(c) => Step::Times(c),
        }
    }

    /// Whether the step can be taken back: a scale step needs a constant
    /// other than zero.
    pub open spec fn reversible(self) -> bool {
        match self {
            Step::Plus(_) => true,
            Step::Minus(_) => true,
            Step::Times(c) => c.mantissa != 0,
            Step::Over(c) => c.mantissa != 0,
        }
    }

    /// The step that takes this step's result back to its input.
    pub fn inverse(&self) -> (back: Step)
        ensures
            back == self.undo(),
    {
        match self {
            Step::Plus(c) => Step::Minus(*c),
            Step::Minus(c) => Step::Plus(*c),
            Step::Times(c) => Step::Over(*c),
            Step::Over(c) => Step::Times(*c),
        }
    }

    /// Whether the step can be taken back.
    pub fn is_reversible(&self) -> (ok: bool)
        ensures
            ok == self.reversible(),
    {
        match self {
            Step::Plus(_) => true,
            Step::Minus(_) => true,
            Step::Times(c) => c.mantissa != 0,
            Step::Over(c) => c.mantissa != 0,
        }
    }
}

/// What a formula makes of `x`: its steps applied in order.
pub open spec fn apply(steps: Seq<Step>, x: real) -> real
    decreases steps.len(),
{
    if steps.len() == 0 {
        x
    } else {
        steps.last().run(apply(steps.drop_last(), x))
    }
}

/// The formula read backwards, each step undone.
pub open spec fn inverse(steps: Seq<Step>) -> Seq<Step> {
    Seq::new(steps.len(), |i: int| steps[steps.len() - 1 - i].undo())
}

/// Whether every step of the formula can be taken back.
pub open spec fn reversible(steps: Seq<Step>) -> bool {
    forall|i: int| 0 <= i < steps.len() ==> (#[trigger] steps[i]).reversible()
}

/// The inverse of a formula, built step by step.
pub fn invert(steps: &Vec<Step>) -> (back: Vec<Step>)
    ensures
        back@ == inverse(steps@),
{
    let n = steps.len();
    let mut back: Vec<Step> = Vec::new();
    let mut i: usize = 0;
    while i < n
        invariant
            n == steps@.len(),
            i <= n,
            back@.len() == i,
            forall|k: int| 0 <= k < i ==> back@[k] == steps@[n - 1 - k].undo(),
        decreases n - i,
    {
        let s = steps[n - 1 - i].inverse();
        back.push(s);
        i += 1;
    }
    assert(back@ =~= inverse(steps@));
    back
}

/// Whether every step of the formula can be taken back.
pub fn all_reversible(steps: &Vec<Step>) -> (ok: bool)
    ensures
        ok == reversible(steps@),
{
    let n = steps.len();
    let mut i: usize = 0;
    while i < n
        invariant
            n == steps@.len(),
            i <= n,
            forall|k: int| 0 <= k < i ==> (#[trigger] steps@[k]).reversible(),
        decreases n - i,
    {
        if !steps[i].is_reversible() {
            return false;
        }
        i += 1;
    }
    true
}

/// A copy of a formula.
pub fn copy_steps(steps: &Vec<Step>) -> (copy: Vec<Step>)
    ensures
        copy@ == steps@,
{
    let n = steps.len();
    let mut copy: Vec<Step> = Vec::new();
    let mut i: usize = 0;
    while i < n
        invariant
            n == steps@.len(),
            i <= n,
            copy@ == steps@.take(i as int),
        decreases n - i,
    {
        copy.push(steps[i]);
        assert(steps@.take(i + 1) =~= steps@.take(i as int).push(steps@[i as int]));
        i += 1;
    }
    assert(steps@.take(n as int) =~= steps@);
    copy
}

/// A reversible formula and its inverse cancel, in either order.
pub proof fn lemma_round_trip(steps: Seq<Step>, x: real)
    requires
        reversible(steps),
    ensures
        apply(inverse(steps), apply(steps, x)) == x,
        apply(steps, apply(inverse(steps), x)) == x,
    decreases steps.len(),
{
    if steps.len() == 0 {
        assert(inverse(steps) =~= Seq::<Step>::empty());
    } else {
        let front = steps.drop_last();
        let last = steps.last();
        assert(reversible(front));
        assert(inverse(steps) =~= seq![last.undo()] + inverse(front));
        assert(steps =~= front + seq![last]);

        // Forward, then back.
        let mid = apply(front, x);
        lemma_apply_concat(seq![last.undo()], inverse(front), last.run(mid));
        lemma_apply_single(last.undo(), last.run(mid));
        lemma_step_round_trip(last, mid);
        lemma_round_trip(front, x);

        // Back, then forward.
        let y = last.undo().run(x);
        lemma_apply_concat(seq![last.undo()], inverse(front), x);
        lemma_apply_single(last.undo(), x);
        lemma_round_trip(front, y);
        lemma_step_round_trip(last, x);
    }
}

/// The inverse of a reversible formula is reversible, and its own inverse is
/// the formula.
pub proof fn law_inverse_twice(steps: Seq<Step>)
    requires
        reversible(steps),
    ensures
        reversible(inverse(steps)),
        inverse(inverse(steps)) == steps,
{
    let back = inverse(steps);
    assert forall|i: int| 0 <= i < back.len() implies (#[trigger] back[i]).reversible() by {
        lemma_step_round_trip(steps[steps.len() - 1 - i], 0 as real);
    }
    assert forall|i: int| 0 <= i < steps.len() implies inverse(back)[i] == steps[i] by {
        lemma_step_round_trip(steps[i], 0 as real);
    }
    assert(inverse(back) =~= steps);
}

/// Undoing a reversible step restores the input, and undoing twice is the
/// step itself.
pub proof fn lemma_step_round_trip(s: Step, x: real)
    requires
        s.reversible(),
    ensures
        s.undo().run(s.run(x)) == x,
        s.run(s.undo().run(x)) == x,
        s.undo().undo() == s,
        s.undo().reversible(),
{
    match s {
        Step::Plus(c) => {},
        Step::Minus(c) => {},
        Step::Times(c) => {
            lemma_value_zero(c);
            let v = c.value();
            assert(x * v / v == x && x / v * v == x) by (nonlinear_arith)
                requires
                    v != 0 as real,
            ;
        },
        Step::Over(c) => {
            lemma_value_zero(c);
            let v = c.value();
            assert(x * v / v == x && x / v * v == x) by (nonlinear_arith)
                requires
                    v != 0 as real,
            ;
        },
    }
}

/// A formula followed by another is applied as the first, then the second.
pub proof fn lemma_apply_concat(first: Seq<Step>, second: Seq<Step>, x: real)
    ensures
        apply(first + second, x) == apply(second, apply(first, x)),
    decreases second.len(),
{
    if second.len() == 0 {
        assert(first + second =~= first);
    } else {
        assert((first + second).drop_last() =~= first + second.drop_last());
        assert((first + second).last() == second.last());
        lemma_apply_concat(first, second.drop_last(), x);
    }
}

/// A formula of one step is that step.
pub proof fn lemma_apply_single(s: Step, x: real)
    ensures
        apply(seq![s], x) == s.run(x),
{
    assert(seq![s].drop_last() =~= Seq::<Step>::empty());
    assert(apply(Seq::<Step>::empty(), x) == x);
}

/// A decimal constant is zero exactly when its mantissa is.
pub proof fn lemma_value_zero(d: Decimal)
    ensures
        (d.value() == 0 as real) <==> d.mantissa == 0,
{
    lemma_pow10_positive(d.scale as nat);
    let m = d.mantissa as real;
    let p = pow10(d.scale as nat);
    assert((m / p == 0 as real) <==> (m == 0 as real)) by (nonlinear_arith)
        requires
            p > 0 as real,
    ;
}

/// Every power of ten is positive.
pub proof fn lemma_pow10_positive(n: nat)
    ensures
        pow10(n) > 0 as real,
    decreases n,
{
    if n > 0 {
        lemma_pow10_positive((n - 1) as nat);
        let p = pow10((n - 1) as nat);
        assert(p * (10 as real) > 0 as real) by (nonlinear_arith)
            requires
                p > 0 as real,
        ;
    }
}

} // verus!
