//! Colour letters to RGB triples.

use vstd::prelude::*;

verus! {

/// `'R'`, `'G'` and `'B'` give pure red, green and blue; any other letter gives black.
pub fn get_rgb(c: char) -> (rgb: (u8, u8, u8))
    ensures
        rgb == if c == 'R' {
            (255u8, 0u8, 0u8)
        } else if c == 'G' {
            (0u8, 255u8, 0u8)
        } else if c == 'B' {
            (0u8, 0u8, 255u8)
        } else {
            (0u8, 0u8, 0u8)
        },
{
    match c {
        'R' => (255, 0, 0),
        'G' => (0, 255, 0),
        'B' => (0, 0, 255),
        _ => (0, 0, 0),
    }
}

} // verus!
