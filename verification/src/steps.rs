//! Ready-made steps over integers: the ordinary transformations a pipeline
//! is assembled from.

use vstd::math::abs;
use vstd::prelude::*;

use crate::decimal::i32_to_string;
use crate::decimal::spec_int_digits;
use crate::failure::Failure;
use crate::step::Act;
use crate::Out;

verus! {

/// Adds a fixed amount to its input.
pub struct AddStep {
    pub amount: i32,
}

/// A step that adds `y` to its input.
pub fn add(y: i32) -> (r: AddStep)
    ensures
        r.amount == y,
{
    AddStep { amount: y }
}

impl Act<i32, i32> for AddStep {
    open spec fn act_req(&self, input: i32) -> bool {
        i32::MIN <= input + self.amount <= i32::MAX
    }

    open spec fn act_ok(&self, input: i32) -> bool {
        true
    }

    open spec fn act_out(&self, input: i32) -> i32 {
        (input + self.amount) as i32
    }

    open spec fn act_err(&self, input: i32, err: Failure) -> bool {
        false
    }

    fn act(&self, input: i32) -> (r: Out<i32>) {
        Ok(input + self.amount)
    }
}

/// Squares a non-negative input; fails on a negative one.
pub struct SquareStep {}

/// A step that squares its input, defined only for non-negative values.
pub fn square() -> (r: SquareStep) {
    SquareStep {  }
}

impl Act<i32, i32> for SquareStep {
    open spec fn act_req(&self, input: i32) -> bool {
        input >= 0 ==> input * input <= i32::MAX
    }

    open spec fn act_ok(&self, input: i32) -> bool {
        input >= 0
    }

    open spec fn act_out(&self, input: i32) -> i32 {
        (input * input) as i32
    }

    open spec fn act_err(&self, input: i32, err: Failure) -> bool {
        err matches Failure::InvalidInput(m) && m@ == "Negative input for square function"@
    }

    fn act(&self, input: i32) -> (r: Out<i32>) {
        if input < 0 {
            let e = Failure::InvalidInput(
                String::from_str("Negative input for square function"),
            );
            proof {
                assert(self.act_err(input, e));
            }
            Err(e)
        } else {
            proof {
                assert(input * input >= 0) by (nonlinear_arith);
            }
            Ok(input * input)
        }
    }
}

/// Doubles its input.
pub struct DoubleStep {}

/// A step that doubles its input.
pub fn double() -> (r: DoubleStep) {
    DoubleStep {  }
}

impl Act<i32, i32> for DoubleStep {
    open spec fn act_req(&self, input: i32) -> bool {
        i32::MIN <= 2 * input <= i32::MAX
    }

    open spec fn act_ok(&self, input: i32) -> bool {
        true
    }

    open spec fn act_out(&self, input: i32) -> i32 {
        (2 * input) as i32
    }

    open spec fn act_err(&self, input: i32, err: Failure) -> bool {
        false
    }

    fn act(&self, input: i32) -> (r: Out<i32>) {
        Ok(2 * input)
    }
}

/// Renders its input in decimal.
pub struct ToStringStep {}

/// A step that renders its input as a decimal string.
pub fn to_string() -> (r: ToStringStep) {
    ToStringStep {  }
}

impl Act<i32, String> for ToStringStep {
    open spec fn act_req(&self, input: i32) -> bool {
        true
    }

    open spec fn act_ok(&self, input: i32) -> bool {
        true
    }

    open spec fn act_out(&self, input: i32) -> Seq<char> {
        spec_int_digits(input as int)
    }

    open spec fn act_err(&self, input: i32, err: Failure) -> bool {
        false
    }

    fn act(&self, input: i32) -> (r: Out<String>) {
        Ok(i32_to_string(input))
    }
}

/// Truncating signed division: the quotient of the magnitudes, negated when
/// exactly one operand is negative — the rounding `/` performs on machine
/// integers.
pub open spec fn spec_div_trunc(a: int, b: int) -> int {
    let q = abs(a) as int / abs(b) as int;
    if (a < 0) != (b < 0) {
        -q
    } else {
        q
    }
}

/// Divides its input by a fixed divisor; fails when the divisor is zero.
pub struct DivideStep {
    pub divisor: i32,
}

/// A step that divides its input by `y`.
pub fn divide(y: i32) -> (r: DivideStep)
    ensures
        r.divisor == y,
{
    DivideStep { divisor: y }
}

impl Act<i32, i32> for DivideStep {
    open spec fn act_req(&self, input: i32) -> bool {
        !(input == i32::MIN && self.divisor == -1)
    }

    open spec fn act_ok(&self, input: i32) -> bool {
        self.divisor != 0
    }

    open spec fn act_out(&self, input: i32) -> i32 {
        spec_div_trunc(input as int, self.divisor as int) as i32
    }

    open spec fn act_err(&self, input: i32, err: Failure) -> bool {
        err matches Failure::ArithmeticError(m) && m@ == "Division by zero"@
    }

    fn act(&self, input: i32) -> (r: Out<i32>) {
        if self.divisor == 0 {
            let e = Failure::ArithmeticError(String::from_str("Division by zero"));
            proof {
                assert(self.act_err(input, e));
            }
            Err(e)
        } else {
            let negated = (input < 0) != (self.divisor < 0);
            let magnitude_in: u32 = if input < 0 {
                (-(input as i64)) as u32
            } else {
                input as u32
            };
            let magnitude_div: u32 = if self.divisor < 0 {
                (-(self.divisor as i64)) as u32
            } else {
                self.divisor as u32
            };
            let quotient: u32 = magnitude_in / magnitude_div;
            proof {
                vstd::arithmetic::div_mod::lemma_div_nonincreasing(
                    magnitude_in as int,
                    magnitude_div as int,
                );
                if magnitude_div >= 2 {
                    vstd::arithmetic::div_mod::lemma_div_is_ordered_by_denominator(
                        magnitude_in as int,
                        2,
                        magnitude_div as int,
                    );
                }
            }
            if negated {
                Ok((-(quotient as i64)) as i32)
            } else {
                Ok(quotient as i32)
            }
        }
    }
}

/// For a collection of plain machine integers, the deep view is the view
/// itself, element for element.
proof fn lemma_vec_i32_deep_view(v: &Vec<i32>)
    ensures
        v.deep_view() =~= v@,
{
}

/// Appends a fixed suffix to its input collection.
pub struct AppendStep {
    pub suffix: Vec<i32>,
}

/// A step that appends `y` to the end of its input collection.
pub fn append(y: Vec<i32>) -> (r: AppendStep)
    ensures
        r.suffix == y,
{
    AppendStep { suffix: y }
}

impl Act<Vec<i32>, Vec<i32>> for AppendStep {
    open spec fn act_req(&self, input: Seq<i32>) -> bool {
        input.len() + self.suffix@.len() <= usize::MAX
    }

    open spec fn act_ok(&self, input: Seq<i32>) -> bool {
        true
    }

    open spec fn act_out(&self, input: Seq<i32>) -> Seq<i32> {
        input + self.suffix.deep_view()
    }

    open spec fn act_err(&self, input: Seq<i32>, err: Failure) -> bool {
        false
    }

    fn act(&self, input: Vec<i32>) -> (r: Out<Vec<i32>>) {
        proof {
            lemma_vec_i32_deep_view(&input);
            lemma_vec_i32_deep_view(&self.suffix);
        }
        let mut out = input;
        let ghost orig = out@;
        let mut i: usize = 0;
        while i < self.suffix.len()
            invariant
                i <= self.suffix.len(),
                out@ =~= orig + self.suffix@.take(i as int),
                orig.len() + self.suffix@.len() <= usize::MAX,
            decreases self.suffix.len() - i,
        {
            out.push(self.suffix[i]);
            i = i + 1;
        }
        proof {
            assert(self.suffix@.take(self.suffix@.len() as int) =~= self.suffix@);
            lemma_vec_i32_deep_view(&out);
            assert(out.deep_view() =~= self.act_out(orig));
        }
        Ok(out)
    }
}

/// Passes a non-negative input through unchanged; fails on a negative one,
/// reporting the offending value in the failure's message.
pub struct NonNegativeStep {}

/// A step that validates that its input is not negative, naming the
/// offending value when it is.
pub fn require_non_negative() -> (r: NonNegativeStep) {
    NonNegativeStep {  }
}

impl Act<i32, i32> for NonNegativeStep {
    open spec fn act_req(&self, input: i32) -> bool {
        true
    }

    open spec fn act_ok(&self, input: i32) -> bool {
        input >= 0
    }

    open spec fn act_out(&self, input: i32) -> i32 {
        input
    }

    open spec fn act_err(&self, input: i32, err: Failure) -> bool {
        err matches Failure::InvalidInput(m) && m@ == spec_int_digits(input as int)
    }

    fn act(&self, input: i32) -> (r: Out<i32>) {
        if input < 0 {
            let e = Failure::InvalidInput(i32_to_string(input));
            proof {
                assert(self.act_err(input, e));
            }
            Err(e)
        } else {
            Ok(input)
        }
    }
}

/// The magnitude of its input.
pub struct AbsStep {}

/// A step that replaces its input with the input's absolute value.
pub fn abs_value() -> (r: AbsStep) {
    AbsStep {  }
}

impl Act<i32, i32> for AbsStep {
    open spec fn act_req(&self, input: i32) -> bool {
        input != i32::MIN
    }

    open spec fn act_ok(&self, input: i32) -> bool {
        true
    }

    open spec fn act_out(&self, input: i32) -> i32 {
        abs(input as int) as i32
    }

    open spec fn act_err(&self, input: i32, err: Failure) -> bool {
        false
    }

    fn act(&self, input: i32) -> (r: Out<i32>) {
        if input < 0 {
            Ok(-input)
        } else {
            Ok(input)
        }
    }
}

} // verus!
