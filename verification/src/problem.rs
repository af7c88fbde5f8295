//! The problems that the player answers: a prompt and the one answer that
//! counts as correct.
use vstd::prelude::*;
use vstd::string::*;
use rand::rngs::SmallRng;
use crate::rng::{draw_below, draw_bool};
use crate::text::{
    all_digits, decimal, decimal_digits, decimal_value, lemma_decimal_round_trip, same_text,
};

verus! {

/// Something that can be asked and answered.
pub trait Problem {
    /// The answer that counts as correct.
    spec fn expected(&self) -> Seq<char>;

    /// Whether `answer` is correct: it must equal the expected answer
    /// character for character.
    fn test_correct(&self, answer: &str) -> (r: bool)
        ensures
            r == (answer@ == self.expected()),
    ;

    /// The answer that counts as correct.
    fn get_answer(&self) -> (r: String)
        ensures
            r@ == self.expected(),
    ;
}

/// A problem given as text.
pub struct TextProblem {
    pub problem: String,
    pub answer: String,
}

/// What a text problem holds.
pub struct TextProblemView {
    /// The prompt shown to the player.
    pub problem: Seq<char>,
    /// The answer that counts as correct.
    pub answer: Seq<char>,
}

impl View for TextProblem {
    type V = TextProblemView;

    open spec fn view(&self) -> TextProblemView {
        TextProblemView { problem: self.problem@, answer: self.answer@ }
    }
}

impl Problem for TextProblem {
    open spec fn expected(&self) -> Seq<char> {
        self.answer@
    }

    fn test_correct(&self, answer: &str) -> (r: bool) {
        same_text(answer, self.answer.as_str())
    }

    fn get_answer(&self) -> (r: String) {
        self.answer.clone()
    }
}

impl TextProblem {
    /// The problem with the given prompt and answer.
    pub fn new(problem: &str, answer: &str) -> (p: Self)
        ensures
            p@ == (TextProblemView { problem: problem@, answer: answer@ }),
    {
        TextProblem { problem: String::from_str(problem), answer: String::from_str(answer) }
    }
}

/// The left operand of the prompt made from the draws `a` and `b`: `a` for
/// an addition, the sum for a subtraction.
pub open spec fn left_operand(a: nat, b: nat, plus: bool) -> nat {
    if plus {
        a
    } else {
        a + b
    }
}

/// The right operand of the prompt made from the draws `a` and `b`: `b` for
/// an addition, `a` for a subtraction.
pub open spec fn right_operand(a: nat, b: nat, plus: bool) -> nat {
    if plus {
        b
    } else {
        a
    }
}

/// The number that answers the prompt made from the draws `a` and `b`: the
/// sum for an addition, `b` for a subtraction.
pub open spec fn result_operand(a: nat, b: nat, plus: bool) -> nat {
    if plus {
        a + b
    } else {
        b
    }
}

/// The problem made from the draws `a` and `b`: the addition `a+b=?` or the
/// subtraction `c-a=?` of the sum `c`.
pub open spec fn add_sub(a: nat, b: nat, plus: bool) -> TextProblemView {
    TextProblemView {
        problem: decimal_digits(left_operand(a, b, plus)) + (if plus {
            "+"@
        } else {
            "-"@
        }) + decimal_digits(right_operand(a, b, plus)) + "=?"@,
        answer: decimal_digits(result_operand(a, b, plus)),
    }
}

/// Whether `x` may be drawn from the range from `start` up to, not
/// including, `end`. A range without any number in it counts as the range
/// that holds `start` alone.
pub open spec fn drawable(start: nat, end: nat, x: nat) -> bool {
    if start < end {
        start <= x < end
    } else {
        x == start
    }
}

/// Whether `p` is a problem made from two numbers of the range from `start`
/// up to, not including, `end`.
pub open spec fn drawn_from(start: nat, end: nat, p: TextProblemView) -> bool {
    exists|a: nat, b: nat, plus: bool|
        drawable(start, end, a) && drawable(start, end, b) && p == #[trigger] add_sub(a, b, plus)
}

/// The answer of a generated problem is a number in decimal, and it undoes
/// the prompt: taken from the left operand of an addition's sum, or added to
/// the right operand of a subtraction, it gives the other operand back, so
/// the two numbers drawn can be read off prompt and answer.
pub proof fn lemma_answer_inverts_prompt(a: nat, b: nat, plus: bool)
    ensures
        add_sub(a, b, plus).answer.len() > 0,
        all_digits(add_sub(a, b, plus).answer),
        add_sub(a, b, plus).problem.len() > 0,
        plus ==> decimal_value(add_sub(a, b, plus).answer) - right_operand(a, b, plus)
            == left_operand(a, b, plus),
        plus ==> left_operand(a, b, plus) == a && right_operand(a, b, plus) == b,
        !plus ==> decimal_value(add_sub(a, b, plus).answer) + right_operand(a, b, plus)
            == left_operand(a, b, plus),
        !plus ==> right_operand(a, b, plus) == a && decimal_value(add_sub(a, b, plus).answer)
            == b,
{
    lemma_decimal_round_trip(result_operand(a, b, plus));
    lemma_decimal_round_trip(left_operand(a, b, plus));
}

/// The problem made from the draws `a` and `b`.
pub fn add_sub_problem(a: usize, b: usize, plus: bool) -> (p: TextProblem)
    ensures
        p@ == add_sub(a as nat, b as nat, plus),
{
    let c: u128 = a as u128 + b as u128;
    if plus {
        let mut problem = decimal(a as u128);
        problem.append("+");
        let right = decimal(b as u128);
        problem.append(right.as_str());
        problem.append("=?");
        TextProblem { problem, answer: decimal(c) }
    } else {
        let mut problem = decimal(c);
        problem.append("-");
        let right = decimal(a as u128);
        problem.append(right.as_str());
        problem.append("=?");
        TextProblem { problem, answer: decimal(b as u128) }
    }
}

/// One number drawn from the range from `start` up to, not including,
/// `end`; `start` itself where the range is empty.
pub fn draw_operand(rng: &mut SmallRng, start: usize, end: usize) -> (x: usize)
    ensures
        drawable(start as nat, end as nat, x as nat),
{
    if start < end {
        draw_below(rng, start, end)
    } else {
        start
    }
}

/// Draws two numbers from the range from `start` up to, not including,
/// `end`, and asks for their sum or, as a coin decides, for the second
/// number given the sum and the first.
pub fn gen_simple_add_sub(rng: &mut SmallRng, start: usize, end: usize) -> (p: TextProblem)
    ensures
        drawn_from(start as nat, end as nat, p@),
{
    let a: usize = draw_operand(rng, start, end);
    let b: usize = draw_operand(rng, start, end);
    let plus = draw_bool(rng);
    add_sub_problem(a, b, plus)
}

} // verus!
