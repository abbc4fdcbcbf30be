//! Dice-expression evaluation. The arithmetic grammar (`3d6+1d4-2` style) is
//! evaluated by the `d20` crate behind a trusted wrapper; this module states
//! what every outcome looks like and proves the total stays within the bounds
//! the expression allows.

use vstd::prelude::*;
use vstd::string::StringExecFns;

use crate::text::dec_digits;
use crate::text::int_digits;
use crate::text::plus_int_digits;
use crate::text::i64_to_string;
use crate::text::plus_i64_to_string;
use crate::text::u64_to_string;

verus! {

/// The evaluated result of one term of a roll expression: either a flat
/// signed modifier, or a group of dice with the individual die values rolled.
pub enum RollTerm {
    Modifier(i32),
    Dice { multiplier: i32, sides: u32, rolls: Vec<u32> },
}

/// The result of evaluating a whole roll expression: the net total and the
/// evaluated terms in declaration order.
pub struct RollResult {
    pub terms: Vec<RollTerm>,
    pub total: i64,
}

pub open spec fn abs_int(m: int) -> int {
    if m >= 0 {
        m
    } else {
        -m
    }
}

/// A single evaluated term is well formed: within the evaluator's bounds,
/// one die value per die rolled, and every die value in `1..=sides`.
pub open spec fn term_wf(t: RollTerm) -> bool {
    match t {
        RollTerm::Modifier(m) => -1000000 <= m <= 1000000,
        RollTerm::Dice { multiplier, sides, rolls } => {
            &&& -1000000 <= multiplier <= 1000000
            &&& 1 <= sides <= 1000000
            &&& rolls@.len() == abs_int(multiplier as int)
            &&& forall|i: int| 0 <= i < rolls@.len() ==> 1 <= #[trigger] rolls@[i] <= sides
        },
    }
}

/// The signed contribution of one term to the total: the modifier value, or
/// the sum of the die values, negated for a negative multiplier.
pub open spec fn term_subtotal(t: RollTerm) -> int {
    match t {
        RollTerm::Modifier(m) => m as int,
        RollTerm::Dice { multiplier, rolls, .. } => {
            if multiplier < 0 {
                -sum_rolls(rolls@)
            } else {
                sum_rolls(rolls@)
            }
        },
    }
}

pub open spec fn sum_rolls(rs: Seq<u32>) -> int
    decreases rs.len(),
{
    if rs.len() == 0 {
        0
    } else {
        sum_rolls(rs.drop_last()) + rs.last()
    }
}

pub open spec fn terms_total(ts: Seq<RollTerm>) -> int
    decreases ts.len(),
{
    if ts.len() == 0 {
        0
    } else {
        terms_total(ts.drop_last()) + term_subtotal(ts.last())
    }
}

/// The least total the term can contribute (every die shows 1).
pub open spec fn term_min(t: RollTerm) -> int {
    match t {
        RollTerm::Modifier(m) => m as int,
        RollTerm::Dice { multiplier, sides, .. } => {
            if multiplier >= 0 {
                multiplier as int
            } else {
                multiplier * sides
            }
        },
    }
}

/// The greatest total the term can contribute (every die shows `sides`).
pub open spec fn term_max(t: RollTerm) -> int {
    match t {
        RollTerm::Modifier(m) => m as int,
        RollTerm::Dice { multiplier, sides, .. } => {
            if multiplier >= 0 {
                multiplier * sides
            } else {
                multiplier as int
            }
        },
    }
}

pub open spec fn terms_min(ts: Seq<RollTerm>) -> int
    decreases ts.len(),
{
    if ts.len() == 0 {
        0
    } else {
        terms_min(ts.drop_last()) + term_min(ts.last())
    }
}

pub open spec fn terms_max(ts: Seq<RollTerm>) -> int
    decreases ts.len(),
{
    if ts.len() == 0 {
        0
    } else {
        terms_max(ts.drop_last()) + term_max(ts.last())
    }
}

/// A whole evaluated roll is well formed: at least one term, every term well
/// formed, and the total equal to the sum of the terms.
pub open spec fn roll_result_wf(r: RollResult) -> bool {
    &&& r.terms@.len() >= 1
    &&& forall|i: int| 0 <= i < r.terms@.len() ==> term_wf(#[trigger] r.terms@[i])
    &&& r.total == terms_total(r.terms@)
}

/// What the evaluator's parser makes of an expression: `None` when the
/// expression is rejected, otherwise one `(multiplier, sides)` pair per term
/// in order, with `sides == 0` standing for a flat modifier of value
/// `multiplier`. The parse is a deterministic function of the expression.
pub uninterp spec fn dice_shape(s: Seq<char>) -> Option<Seq<(int, int)>>;

/// The evaluator's error text for a rejected expression. Rejection happens
/// before any die is rolled, so the text, like the parse, is a deterministic
/// function of the expression alone.
pub uninterp spec fn dice_error_of(s: Seq<char>) -> Seq<char>;

/// An evaluated term matches the parsed shape it came from.
pub open spec fn term_matches(t: RollTerm, shape: (int, int)) -> bool {
    match t {
        RollTerm::Modifier(m) => shape.1 == 0 && m == shape.0,
        RollTerm::Dice { multiplier, sides, .. } => {
            shape.1 != 0 && multiplier == shape.0 && sides == shape.1
        },
    }
}

/// Relies on d20::roll_dice: it parses the expression deterministically
/// (`dice_shape` names that parse), rolls each die uniformly in `1..=sides`
/// with one value recorded per die, sums the term contributions into the
/// total, and returns an error value exactly when the expression is
/// rejected — its display text depends on the expression alone, and
/// `dice_error_of` names it. The length bound keeps the 64-bit total sum
/// away from overflow.
#[verifier::external_body]
fn d20_roll(s: &str) -> (r: Result<RollResult, String>)
    requires
        s@.len() <= 1000000,
    ensures
        r is Ok <==> dice_shape(s@) is Some,
        r matches Err(e) ==> e@ == dice_error_of(s@),
        r matches Ok(out) ==> {
            &&& roll_result_wf(out)
            &&& out.terms@.len() == dice_shape(s@).unwrap().len()
            &&& forall|i: int| 0 <= i < out.terms@.len() ==> term_matches(
                #[trigger] out.terms@[i],
                dice_shape(s@).unwrap()[i],
            )
        },
{
    match d20::roll_dice(s) {
        Ok(roll) => {
            let terms = roll.terms.into_iter().map(|t| match t {
                d20::TermResult::Modifier(m) => RollTerm::Modifier(m),
                d20::TermResult::Dice { multiplier, sides, rolls } =>
                    RollTerm::Dice { multiplier, sides, rolls },
            }).collect();
            Ok(RollResult { total: roll.total, terms })
        },
        Err(e) => Err(e.to_string()),
    }
}

/// A well-formed term's contribution lies between its least and greatest
/// possible value.
proof fn lemma_term_bounds(t: RollTerm)
    requires
        term_wf(t),
    ensures
        term_min(t) <= term_subtotal(t) <= term_max(t),
{
    match t {
        RollTerm::Modifier(_) => {},
        RollTerm::Dice { multiplier, sides, rolls } => {
            lemma_sum_rolls_bounds(rolls@, sides);
            let k = abs_int(multiplier as int);
            assert(k * 1 == k) by (nonlinear_arith);
            if multiplier >= 0 {
                assert(multiplier * sides == k * (sides as int)) by (nonlinear_arith)
                    requires
                        k == multiplier,
                ;
            } else {
                assert(multiplier * sides == -(k * (sides as int))) by (nonlinear_arith)
                    requires
                        k == -(multiplier as int),
                ;
            }
        },
    }
}

/// The sum of `n` die values, each in `1..=sides`, lies in `n..=n*sides`.
proof fn lemma_sum_rolls_bounds(rs: Seq<u32>, sides: u32)
    requires
        forall|i: int| 0 <= i < rs.len() ==> 1 <= #[trigger] rs[i] <= sides,
    ensures
        rs.len() <= sum_rolls(rs) <= rs.len() * sides,
    decreases rs.len(),
{
    if rs.len() == 0 {
    } else {
        lemma_sum_rolls_bounds(rs.drop_last(), sides);
        assert((rs.len() - 1) * sides + sides == rs.len() * sides) by (nonlinear_arith);
    }
}

/// The total of a well-formed roll lies between the least and the greatest
/// total its expression allows: for `NdS+M`, between `N*1+M` and `N*S+M`.
pub proof fn lemma_roll_total_bounds(r: RollResult)
    requires
        roll_result_wf(r),
    ensures
        terms_min(r.terms@) <= r.total <= terms_max(r.terms@),
{
    lemma_terms_total_bounds(r.terms@);
}

proof fn lemma_terms_total_bounds(ts: Seq<RollTerm>)
    requires
        forall|i: int| 0 <= i < ts.len() ==> term_wf(#[trigger] ts[i]),
    ensures
        terms_min(ts) <= terms_total(ts) <= terms_max(ts),
    decreases ts.len(),
{
    if ts.len() == 0 {
    } else {
        lemma_terms_total_bounds(ts.drop_last());
        lemma_term_bounds(ts.last());
    }
}

/// Evaluates a roll expression: parses it, rolls every die, and returns the
/// total with the per-term breakdown, or the evaluator's error text when the
/// expression is rejected. The total always lies within the bounds the
/// expression allows.
pub fn evaluate(expression: &str) -> (r: Result<RollResult, String>)
    requires
        expression@.len() <= 1000000,
    ensures
        r is Ok <==> dice_shape(expression@) is Some,
        r matches Err(e) ==> e@ == dice_error_of(expression@),
        r matches Ok(out) ==> {
            &&& roll_result_wf(out)
            &&& out.terms@.len() == dice_shape(expression@).unwrap().len()
            &&& forall|i: int| 0 <= i < out.terms@.len() ==> term_matches(
                #[trigger] out.terms@[i],
                dice_shape(expression@).unwrap()[i],
            )
            &&& terms_min(out.terms@) <= out.total <= terms_max(out.terms@)
        },
{
    let r = d20_roll(expression);
    proof {
        if r is Ok {
            lemma_roll_total_bounds(r.unwrap());
        }
    }
    r
}

/// The display form of one evaluated term: `+5` or `-2` for a modifier,
/// `3d6[4, 1, 6]` for a dice group.
pub open spec fn spec_term_string(t: RollTerm) -> Seq<char> {
    match t {
        RollTerm::Modifier(m) => plus_int_digits(m as int),
        RollTerm::Dice { multiplier, sides, rolls } => {
            int_digits(multiplier as int) + seq!['d'] + dec_digits(sides as nat) + seq!['[']
                + rolls_items(rolls@) + seq![']']
        },
    }
}

/// The die values joined with `, `.
pub open spec fn rolls_items(rs: Seq<u32>) -> Seq<char>
    decreases rs.len(),
{
    if rs.len() == 0 {
        Seq::empty()
    } else if rs.len() == 1 {
        dec_digits(rs[0] as nat)
    } else {
        rolls_items(rs.drop_last()) + seq![',', ' '] + dec_digits(rs.last() as nat)
    }
}

/// The display form of a whole roll: the terms concatenated in order, as in
/// `3d6[4, 2, 6]+1`.
pub open spec fn spec_roll_string(ts: Seq<RollTerm>) -> Seq<char>
    decreases ts.len(),
{
    if ts.len() == 0 {
        Seq::empty()
    } else {
        spec_roll_string(ts.drop_last()) + spec_term_string(ts.last())
    }
}

/// Provides the way to convert a roll into a display string.
pub trait AsString {
    /// Converts the value into its display string.
    fn as_string(&self) -> String;
}

impl AsString for RollResult {
    /// Renders the breakdown of the roll, term by term.
    fn as_string(&self) -> (out: String)
        ensures
            out@ == spec_roll_string(self.terms@),
    {
        let mut out = String::new();
        let n = self.terms.len();
        let mut i: usize = 0;
        while i < n
            invariant
                n == self.terms@.len(),
                i <= n,
                out@ == spec_roll_string(self.terms@.take(i as int)),
            decreases n - i,
        {
            let piece = term_string(&self.terms[i]);
            out.append(piece.as_str());
            proof {
                assert(self.terms@.take(i + 1 as int).drop_last() =~= self.terms@.take(i as int));
                assert(self.terms@.take(i + 1 as int).last() == self.terms@[i as int]);
            }
            i += 1;
        }
        proof {
            assert(self.terms@.take(n as int) =~= self.terms@);
        }
        out
    }
}

/// Renders one term.
fn term_string(t: &RollTerm) -> (out: String)
    ensures
        out@ == spec_term_string(*t),
{
    match t {
        RollTerm::Modifier(m) => plus_i64_to_string(*m as i64),
        RollTerm::Dice { multiplier, sides, rolls } => {
            proof {
                reveal_strlit("d");
                reveal_strlit("[");
                reveal_strlit("]");
                reveal_strlit(", ");
            }
            let mut out = i64_to_string(*multiplier as i64);
            out.append("d");
            let sides_str = u64_to_string(*sides as u64);
            out.append(sides_str.as_str());
            out.append("[");
            let n = rolls.len();
            let mut i: usize = 0;
            while i < n
                invariant
                    n == rolls@.len(),
                    i <= n,
                    out@ == int_digits(*multiplier as int) + seq!['d'] + dec_digits(
                        *sides as nat,
                    ) + seq!['['] + rolls_items(rolls@.take(i as int)),
                    ", "@ == seq![',', ' '],
                decreases n - i,
            {
                if i > 0 {
                    out.append(", ");
                }
                let v = u64_to_string(rolls[i] as u64);
                out.append(v.as_str());
                proof {
                    assert(rolls@.take(i + 1 as int).drop_last() =~= rolls@.take(i as int));
                    assert(rolls@.take(i + 1 as int).last() == rolls@[i as int]);
                    if i == 0 {
                        assert(rolls_items(rolls@.take(1int)) == dec_digits(
                            rolls@[0] as nat,
                        ));
                    }
                }
                i += 1;
            }
            out.append("]");
            proof {
                assert(rolls@.take(n as int) =~= rolls@);
                assert(out@ =~= spec_term_string(*t));
            }
            out
        },
    }
}

} // verus!
