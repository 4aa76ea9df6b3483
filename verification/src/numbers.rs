//! The number analyzer: labels, sum and largest of a list of integers.

use vstd::prelude::*;

verus! {

/// Whether `n` is even.
pub fn is_even(n: i32) -> (b: bool)
    ensures
        b == (n % 2 == 0),
{
    n % 2 == 0
}

/// How the analyzer labels a number.
#[derive(Debug, Clone, Copy, PartialEq, Eq, Structural)]
pub enum NumberLabel {
    FizzBuzz,
    Fizz,
    Buzz,
    Even,
    Odd,
}

/// The label of `n`: multiples of both 3 and 5 first, then of 3, then of 5; other
/// numbers are even or odd.
pub open spec fn label_of(n: int) -> NumberLabel {
    if n % 3 == 0 && n % 5 == 0 {
        NumberLabel::FizzBuzz
    } else if n % 3 == 0 {
        NumberLabel::Fizz
    } else if n % 5 == 0 {
        NumberLabel::Buzz
    } else if n % 2 == 0 {
        NumberLabel::Even
    } else {
        NumberLabel::Odd
    }
}

/// Law: multiples of 15 are FizzBuzz; other multiples of 3 are Fizz; other multiples
/// of 5 are Buzz; the remaining numbers are Even or Odd by their parity.
pub proof fn law_labels_follow_divisibility(n: int)
    ensures
        (label_of(n) == NumberLabel::FizzBuzz) == (n % 15 == 0),
        (label_of(n) == NumberLabel::Fizz) == (n % 3 == 0 && n % 5 != 0),
        (label_of(n) == NumberLabel::Buzz) == (n % 5 == 0 && n % 3 != 0),
        (label_of(n) == NumberLabel::Even) == (n % 3 != 0 && n % 5 != 0 && n % 2 == 0),
        (label_of(n) == NumberLabel::Odd) == (n % 3 != 0 && n % 5 != 0 && n % 2 != 0),
{
    assert((n % 15 == 0) == (n % 3 == 0 && n % 5 == 0)) by (nonlinear_arith);
}

/// Labels `n` as the analyzer prints it.
pub fn label_number(n: i32) -> (l: NumberLabel)
    ensures
        l == label_of(n as int),
{
    let by3 = n % 3 == 0;
    let by5 = n % 5 == 0;
    assert(by3 == ((n as int) % 3 == 0)) by (nonlinear_arith)
        requires by3 == (n % 3 == 0);
    assert(by5 == ((n as int) % 5 == 0)) by (nonlinear_arith)
        requires by5 == (n % 5 == 0);
    if by3 && by5 {
        NumberLabel::FizzBuzz
    } else if by3 {
        NumberLabel::Fizz
    } else if by5 {
        NumberLabel::Buzz
    } else if is_even(n) {
        NumberLabel::Even
    } else {
        NumberLabel::Odd
    }
}

impl NumberLabel {
    /// The word printed for the label.
    pub fn name(&self) -> (s: &'static str)
        ensures
            *self == NumberLabel::FizzBuzz ==> s@ == "FizzBuzz"@,
            *self == NumberLabel::Fizz ==> s@ == "Fizz"@,
            *self == NumberLabel::Buzz ==> s@ == "Buzz"@,
            *self == NumberLabel::Even ==> s@ == "Even"@,
            *self == NumberLabel::Odd ==> s@ == "Odd"@,
    {
        match self {
            NumberLabel::FizzBuzz => "FizzBuzz",
            NumberLabel::Fizz => "Fizz",
            NumberLabel::Buzz => "Buzz",
            NumberLabel::Even => "Even",
            NumberLabel::Odd => "Odd",
        }
    }
}

/// Sum of the numbers in `s`.
pub open spec fn sum_of(s: Seq<i32>) -> int
    decreases s.len(),
{
    if s.len() == 0 {
        0
    } else {
        sum_of(s.drop_last()) + s.last()
    }
}

/// Every running sum of `s`, from the first element to the last, fits in an `i32`.
pub open spec fn running_sums_fit(s: Seq<i32>) -> bool {
    forall|k: int| 0 <= k <= s.len() ==> i32::MIN <= #[trigger] sum_of(s.take(k)) <= i32::MAX
}

/// Law: the sum is the ordinary arithmetic sum: the empty list sums to zero, and
/// appending any number, negative ones included, changes the sum by exactly it.
pub proof fn law_sum_adds_each_number(s: Seq<i32>, x: i32)
    ensures
        sum_of(Seq::<i32>::empty()) == 0,
        sum_of(s.push(x)) == sum_of(s) + x,
{
    assert(s.push(x).drop_last() =~= s);
}

/// Law: the sum of two lists put together is the sum of their sums.
pub proof fn law_sum_of_concatenation(a: Seq<i32>, b: Seq<i32>)
    ensures
        sum_of(a + b) == sum_of(a) + sum_of(b),
    decreases b.len(),
{
    if b.len() == 0 {
        assert(a + b =~= a);
    } else {
        law_sum_of_concatenation(a, b.drop_last());
        assert((a + b).drop_last() =~= a + b.drop_last());
    }
}

/// Sum of all numbers. The running sum is kept in an `i32`, so every running sum
/// must fit in one.
pub fn sum_numbers(numbers: &[i32]) -> (sum: i32)
    requires
        running_sums_fit(numbers@),
    ensures
        sum == sum_of(numbers@),
{
    let mut sum: i32 = 0;
    let mut i: usize = 0;
    assert(numbers@.take(0) =~= Seq::<i32>::empty());
    while i < numbers.len()
        invariant
            i <= numbers@.len(),
            running_sums_fit(numbers@),
            sum == sum_of(numbers@.take(i as int)),
        decreases numbers@.len() - i,
    {
        assert(numbers@.take(i + 1).drop_last() =~= numbers@.take(i as int));
        assert(i32::MIN <= sum_of(numbers@.take(i + 1)) <= i32::MAX);
        sum = sum + numbers[i];
        i = i + 1;
    }
    assert(numbers@.take(numbers@.len() as int) =~= numbers@);
    sum
}

/// The largest number of a non-empty list.
pub fn largest(numbers: &[i32]) -> (m: i32)
    requires
        numbers@.len() > 0,
    ensures
        numbers@.contains(m),
        forall|i: int| 0 <= i < numbers@.len() ==> numbers@[i] <= m,
{
    let mut m = numbers[0];
    let mut i: usize = 0;
    while i < numbers.len()
        invariant
            i <= numbers@.len(),
            numbers@.len() > 0,
            numbers@.contains(m),
            forall|j: int| 0 <= j < i ==> numbers@[j] <= m,
        decreases numbers@.len() - i,
    {
        if numbers[i] > m {
            m = numbers[i];
        }
        i = i + 1;
    }
    m
}

} // verus!
