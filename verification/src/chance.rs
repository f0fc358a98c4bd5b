//! The dice. What they show is left to the thread's random generator; the
//! rules of the game are applied to whatever comes out.

use rand::Rng;
use vstd::prelude::*;

verus! {

/// Draws a whole number between `low` and `high`, both included.
///
/// Calls `rand::Rng::gen_range` on `rand::thread_rng()` with the inclusive
/// range `low..=high`. The range must not be empty, or the call panics. The
/// contract claims only that the number lies in the range.
#[verifier::external_body]
pub(crate) fn draw_between(low: i32, high: i32) -> (drawn: i32)
    requires
        low <= high,
    ensures
        low <= drawn <= high,
{
    rand::thread_rng().gen_range(low..=high)
}

/// Tosses a coin that comes up `true` in `numerator` of `denominator` cases.
///
/// Calls `rand::Rng::gen_ratio` on `rand::thread_rng()`, which panics on a
/// zero denominator and on a numerator above the denominator. The contract
/// claims what its documentation guarantees: certainty at both ends.
#[verifier::external_body]
pub(crate) fn toss(numerator: u32, denominator: u32) -> (heads: bool)
    requires
        0 < denominator,
        numerator <= denominator,
    ensures
        numerator == denominator ==> heads,
        numerator == 0 ==> !heads,
{
    rand::thread_rng().gen_ratio(numerator, denominator)
}

/// Everything that chance decides while one event is handled: the four die
/// faces of a new sign, the twenty-sided roll of an influence attempt, and
/// the coin that decides whether a success costs power.
#[derive(Clone, Copy, Debug, PartialEq, Eq)]
pub struct Chance {
    pub faces: [i32; 4],
    pub roll: i32,
    pub coin: bool,
}

impl Chance {
    /// Whether every value lies in the range of its die.
    pub open spec fn fair(self) -> bool {
        &&& forall|i: int| 0 <= i < 4 ==> 1 <= #[trigger] self.faces@[i] <= 4
        &&& 1 <= self.roll <= 20
    }

    /// Tells whether every value lies in the range of its die.
    pub fn is_fair(&self) -> (fair: bool)
        ensures
            fair == self.fair(),
    {
        1 <= self.faces[0] && self.faces[0] <= 4 && 1 <= self.faces[1] && self.faces[1] <= 4 && 1
            <= self.faces[2] && self.faces[2] <= 4 && 1 <= self.faces[3] && self.faces[3] <= 4 && 1
            <= self.roll && self.roll <= 20
    }

    /// Rolls all the dice once.
    pub fn draw() -> (chance: Chance)
        ensures
            chance.fair(),
    {
        let a = draw_between(1, 4);
        let b = draw_between(1, 4);
        let c = draw_between(1, 4);
        let d = draw_between(1, 4);
        let roll = draw_between(1, 20);
        let coin = toss(1, 2);
        Chance { faces: [a, b, c, d], roll, coin }
    }
}

} // verus!
