//! The guessing game: feedback on a guess, and how many guesses it takes.

use vstd::prelude::*;

verus! {

/// `0` for a correct guess, `1` when it is too high, `-1` when it is too low.
pub fn check_guess(guess: i32, secret: i32) -> (r: i32)
    ensures
        r == if guess == secret {
            0
        } else if guess > secret {
            1
        } else {
            -1
        },
{
    if guess == secret {
        0
    } else if guess > secret {
        1
    } else {
        -1
    }
}

/// Plays the guesses in order until one is correct, and returns how many were made.
/// One of the guesses must be correct.
pub fn attempts_to_guess(guesses: &[i32], secret: i32) -> (n: usize)
    requires
        exists|i: int| 0 <= i < guesses@.len() && guesses@[i] == secret,
    ensures
        1 <= n <= guesses@.len(),
        guesses@[n - 1] == secret,
        forall|j: int| 0 <= j < n - 1 ==> guesses@[j] != secret,
{
    let mut index: usize = 0;
    loop
        invariant
            index < guesses@.len(),
            forall|j: int| 0 <= j < index ==> guesses@[j] != secret,
            exists|i: int| index <= i < guesses@.len() && guesses@[i] == secret,
        decreases guesses@.len() - index,
    {
        if check_guess(guesses[index], secret) == 0 {
            return index + 1;
        }
        index = index + 1;
    }
}

} // verus!
