//! The rules of the game: who may influence a sign, how an attempt turns
//! out, and how the dice name a new sign. Nothing here touches the store.

use crate::chance::{draw_between, toss};
use crate::db::{guild_view, GuildInfo, GuildInfoView};
use crate::text::digit_char;
use vstd::prelude::*;
use vstd::string::StringExecFns;

verus! {

/// Why a user may not influence a sign.
#[derive(Clone, Copy, Debug, PartialEq, Eq, Structural)]
pub enum Rejection {
    /// The guild has no sign today.
    NoSignToday,
    /// Today's sign has been resolved.
    AlreadyResolved,
    /// The user made today's sign.
    CreatorCannotInfluence,
}

/// The first reason, in this order, for which `actor_id` may not influence
/// the sign: there is none today, it is resolved, the actor made it.
pub open spec fn influence_verdict(sign: Option<GuildInfoView>, actor_id: u64) -> Result<(), Rejection> {
    match sign {
        None => Err(Rejection::NoSignToday),
        Some(g) => if !(g.current_sign.state is Created) {
            Err(Rejection::AlreadyResolved)
        } else if g.current_sign.created_by_user_id == actor_id {
            Err(Rejection::CreatorCannotInfluence)
        } else {
            Ok(())
        },
    }
}

/// Decides whether `actor_id` may influence today's sign of a guild.
pub fn validate_influence(sign: &Option<GuildInfo>, actor_id: u64) -> (verdict: Result<(), Rejection>)
    ensures
        verdict == influence_verdict(guild_view(*sign), actor_id),
{
    match sign {
        None => Err(Rejection::NoSignToday),
        Some(g) => {
            if !g.current_sign.state.is_created() {
                Err(Rejection::AlreadyResolved)
            } else if g.current_sign.created_by_user_id == actor_id {
                Err(Rejection::CreatorCannotInfluence)
            } else {
                Ok(())
            }
        },
    }
}

/// The maker of an open sign is always turned away, and for that reason.
pub proof fn law_creator_cannot_influence(sign: GuildInfoView)
    requires
        sign.current_sign.state is Created,
    ensures
        influence_verdict(Some(sign), sign.current_sign.created_by_user_id) == Err::<(), Rejection>(
            Rejection::CreatorCannotInfluence,
        ),
{
}

/// How an influence attempt turned out.
#[derive(Clone, Copy, Debug, PartialEq, Eq, Structural)]
pub struct Attempt {
    pub success: bool,
    pub new_power: i32,
    pub power_changed: bool,
}

/// What a user's power adds to the roll: half the power, rounded down, less five.
pub open spec fn power_modifier(power: int) -> int {
    power / 2 - 5
}

/// Whether a roll reaches the difficulty for a user of the given power.
pub open spec fn attempt_succeeds(power: int, difficulty: int, roll: int) -> bool {
    roll + power_modifier(power) >= difficulty
}

/// The power after an attempt: a success costs one point if the coin says
/// so, a failure always earns one.
pub open spec fn power_after(power: int, success: bool, coin: bool) -> int {
    if success {
        if coin {
            power - 1
        } else {
            power
        }
    } else {
        power + 1
    }
}

/// How an attempt turns out for a given roll and coin.
pub open spec fn attempt_outcome(power: i32, difficulty: i32, roll: i32, coin: bool) -> Attempt {
    let success = attempt_succeeds(power as int, difficulty as int, roll as int);
    Attempt {
        success,
        new_power: power_after(power as int, success, coin) as i32,
        power_changed: !success || coin,
    }
}

/// Whether the power after the attempt is a power: a failure has no room
/// above the greatest power, nor a success that costs a point below the least.
pub open spec fn attempt_fits(power: i32, difficulty: i32, roll: i32, coin: bool) -> bool {
    let success = attempt_succeeds(power as int, difficulty as int, roll as int);
    i32::MIN <= power_after(power as int, success, coin) <= i32::MAX
}

/// Whether a roll reaches the difficulty for a user of the given power.
pub fn reaches(power: i32, difficulty: i32, roll: i32) -> (success: bool)
    ensures
        success == attempt_succeeds(power as int, difficulty as int, roll as int),
{
    let half: i32 = if power >= 0 || power % 2 == 0 {
        power / 2
    } else {
        power / 2 - 1
    };
    let modifier: i64 = half as i64 - 5;
    roll as i64 + modifier >= difficulty as i64
}

/// The outcome of an attempt for a given roll and coin, if the power after
/// it is a power.
pub fn checked_outcome(power: i32, difficulty: i32, roll: i32, coin: bool) -> (attempt: Option<Attempt>)
    ensures
        attempt == if attempt_fits(power, difficulty, roll, coin) {
            Some(attempt_outcome(power, difficulty, roll, coin))
        } else {
            None
        },
        attempt is None <==> {
            let success = attempt_succeeds(power as int, difficulty as int, roll as int);
            (!success && power == i32::MAX) || (success && coin && power == i32::MIN)
        },
{
    let success = reaches(power, difficulty, roll);
    if success {
        if !coin {
            Some(Attempt { success: true, new_power: power, power_changed: false })
        } else if power > i32::MIN {
            Some(Attempt { success: true, new_power: power - 1, power_changed: true })
        } else {
            None
        }
    } else if power < i32::MAX {
        Some(Attempt { success: false, new_power: power + 1, power_changed: true })
    } else {
        None
    }
}

/// The outcome of an attempt for a given roll and coin.
pub fn resolve_outcome(power: i32, difficulty: i32, roll: i32, coin: bool) -> (attempt: Attempt)
    requires
        attempt_fits(power, difficulty, roll, coin),
    ensures
        attempt == attempt_outcome(power, difficulty, roll, coin),
{
    if !reaches(power, difficulty, roll) {
        Attempt { success: false, new_power: power + 1, power_changed: true }
    } else if coin {
        Attempt { success: true, new_power: power - 1, power_changed: true }
    } else {
        Attempt { success: true, new_power: power, power_changed: false }
    }
}

/// Rolls a twenty-sided die and tosses a fair coin, and gives the outcome
/// of the attempt that they decide. The power after the attempt must be a
/// power however the die and the coin fall.
pub fn resolve_attempt(power: i32, difficulty: i32) -> (attempt: Attempt)
    requires
        forall|roll: i32, coin: bool|
            1 <= roll <= 20 ==> #[trigger] attempt_fits(power, difficulty, roll, coin),
    ensures
        exists|roll: i32, coin: bool|
            1 <= roll <= 20 && attempt == #[trigger] attempt_outcome(power, difficulty, roll, coin),
{
    let roll = draw_between(1, 20);
    let coin = toss(1, 2);
    assert(attempt_fits(power, difficulty, roll, coin));
    let attempt = resolve_outcome(power, difficulty, roll, coin);
    assert(attempt == attempt_outcome(power, difficulty, roll, coin));
    attempt
}

/// An attempt moves the power by at most one point: down only on a success,
/// and up, by exactly one, on every failure and on no success.
pub proof fn law_attempt_moves_power_one_step(power: i32, difficulty: i32, roll: i32, coin: bool)
    requires
        attempt_fits(power, difficulty, roll, coin),
    ensures
        ({
            let attempt = attempt_outcome(power, difficulty, roll, coin);
            &&& power - 1 <= attempt.new_power <= power + 1
            &&& attempt.new_power < power ==> attempt.success
            &&& !attempt.success <==> attempt.new_power == power + 1
            &&& attempt.power_changed <==> attempt.new_power != power
        }),
{
}

/// Every power strictly between the least and the greatest leaves room
/// for every attempt.
pub proof fn law_inner_powers_fit(power: i32, difficulty: i32, roll: i32, coin: bool)
    requires
        i32::MIN < power < i32::MAX,
    ensures
        attempt_fits(power, difficulty, roll, coin),
{
}

/// How often `face` is among four die faces.
pub open spec fn times_shown(faces: Seq<i32>, face: i32) -> nat {
    ((if faces[0] == face {
        1int
    } else {
        0int
    }) + (if faces[1] == face {
        1int
    } else {
        0int
    }) + (if faces[2] == face {
        1int
    } else {
        0int
    }) + (if faces[3] == face {
        1int
    } else {
        0int
    })) as nat
}

/// `count` times the digit of `face`.
pub open spec fn run_of(face: i32, count: nat) -> Seq<char> {
    Seq::new(count, |i: int| digit_char(face as int))
}

/// The identifier of the sign that four die faces name: their digits in
/// ascending order.
pub open spec fn sign_id_of(faces: Seq<i32>) -> Seq<char> {
    run_of(1, times_shown(faces, 1)) + run_of(2, times_shown(faces, 2)) + run_of(
        3,
        times_shown(faces, 3),
    ) + run_of(4, times_shown(faces, 4))
}

fn push_run(id: &mut String, faces: &[i32; 4], face: i32, digit: &str)
    requires
        digit@ == seq![digit_char(face as int)],
    ensures
        final(id)@ == old(id)@ + run_of(face, times_shown(faces@, face)),
{
    let ghost before = id@;
    let mut i: usize = 0;
    let ghost mut count: nat = 0;
    while i < 4
        invariant
            i <= 4,
            digit@ == seq![digit_char(face as int)],
            id@ == before + run_of(face, count),
            count == ((if i > 0 && faces@[0] == face {
                1int
            } else {
                0int
            }) + (if i > 1 && faces@[1] == face {
                1int
            } else {
                0int
            }) + (if i > 2 && faces@[2] == face {
                1int
            } else {
                0int
            }) + (if i > 3 && faces@[3] == face {
                1int
            } else {
                0int
            })) as nat,
        decreases 4 - i,
    {
        if faces[i] == face {
            id.append(digit);
            proof {
                assert(before + run_of(face, count) + digit@ =~= before + run_of(face, count + 1));
                count = count + 1;
            }
        }
        i = i + 1;
    }
}

/// Names the sign that four die faces stand for.
pub fn sign_id(faces: &[i32; 4]) -> (id: String)
    ensures
        id@ == sign_id_of(faces@),
{
    proof {
        reveal_strlit("1");
        reveal_strlit("2");
        reveal_strlit("3");
        reveal_strlit("4");
        assert("1"@ =~= seq![digit_char(1)]);
        assert("2"@ =~= seq![digit_char(2)]);
        assert("3"@ =~= seq![digit_char(3)]);
        assert("4"@ =~= seq![digit_char(4)]);
    }
    let mut id = String::new();
    push_run(&mut id, faces, 1, "1");
    push_run(&mut id, faces, 2, "2");
    push_run(&mut id, faces, 3, "3");
    push_run(&mut id, faces, 4, "4");
    assert(id@ =~= sign_id_of(faces@));
    id
}

/// The digit at each place of a sign's identifier: the ones come first,
/// then the twos, the threes and the fours.
proof fn lemma_sign_id_places(faces: Seq<i32>)
    requires
        faces.len() == 4,
        forall|i: int| 0 <= i < 4 ==> 1 <= #[trigger] faces[i] <= 4,
    ensures
        times_shown(faces, 1) + times_shown(faces, 2) + times_shown(faces, 3) + times_shown(
            faces,
            4,
        ) == 4,
        sign_id_of(faces).len() == 4,
        forall|i: int|
            0 <= i < 4 ==> #[trigger] sign_id_of(faces)[i] == (if i < times_shown(faces, 1) {
                '1'
            } else if i < times_shown(faces, 1) + times_shown(faces, 2) {
                '2'
            } else if i < times_shown(faces, 1) + times_shown(faces, 2) + times_shown(faces, 3) {
                '3'
            } else {
                '4'
            }),
{
    let ones = times_shown(faces, 1);
    let twos = times_shown(faces, 2);
    let threes = times_shown(faces, 3);
    let fours = times_shown(faces, 4);
    let share = |k: int|
        (if faces[k] == 1 {
            1int
        } else {
            0int
        }) + (if faces[k] == 2 {
            1int
        } else {
            0int
        }) + (if faces[k] == 3 {
            1int
        } else {
            0int
        }) + (if faces[k] == 4 {
            1int
        } else {
            0int
        });
    assert(1 <= faces[0] <= 4 && share(0) == 1);
    assert(1 <= faces[1] <= 4 && share(1) == 1);
    assert(1 <= faces[2] <= 4 && share(2) == 1);
    assert(1 <= faces[3] <= 4 && share(3) == 1);
    assert(ones + twos + threes + fours == share(0) + share(1) + share(2) + share(3));
    let a = run_of(1, ones);
    let b = run_of(2, twos);
    let c = run_of(3, threes);
    let d = run_of(4, fours);
    let id = sign_id_of(faces);
    assert(id == a + b + c + d);
    assert(id.len() == 4);
    assert forall|i: int| 0 <= i < 4 implies #[trigger] id[i] == (if i < ones {
        '1'
    } else if i < ones + twos {
        '2'
    } else if i < ones + twos + threes {
        '3'
    } else {
        '4'
    }) by {
        if i < ones {
            assert(id[i] == a[i]);
        } else if i < ones + twos {
            assert(id[i] == b[i - ones]);
        } else if i < ones + twos + threes {
            assert(id[i] == c[i - ones - twos]);
        } else {
            assert(id[i] == d[i - ones - twos - threes]);
        }
    }
}

/// Four faces between one and four name a sign of four digits between `1`
/// and `4` that never descend.
pub proof fn law_sign_id_is_sorted_faces(faces: Seq<i32>)
    requires
        faces.len() == 4,
        forall|i: int| 0 <= i < 4 ==> 1 <= #[trigger] faces[i] <= 4,
    ensures
        sign_id_of(faces).len() == 4,
        forall|i: int| 0 <= i < 4 ==> '1' <= #[trigger] sign_id_of(faces)[i] <= '4',
        forall|i: int, j: int|
            0 <= i <= j < 4 ==> #[trigger] sign_id_of(faces)[i] <= #[trigger] sign_id_of(faces)[j],
{
    lemma_sign_id_places(faces);
}

} // verus!
