use enoa_signs::db::{GuildInfo, SignInfo, SignState, Timestamp};
use enoa_signs::engine::{
    checked_outcome, reaches, resolve_attempt, resolve_outcome, sign_id, validate_influence, Attempt,
    Rejection,
};

fn sign(created_by: u64, state: SignState) -> Option<GuildInfo> {
    Some(GuildInfo {
        guild_id: 42,
        current_sign: SignInfo {
            id: "1234".to_string(),
            created_by_user_id: created_by,
            state,
            created_at: Timestamp { seconds: 0, day: 719_163 },
        },
    })
}

#[test]
fn influence_needs_a_sign() {
    assert_eq!(Err(Rejection::NoSignToday), validate_influence(&None, 9));
}

#[test]
fn influence_needs_an_open_sign() {
    let resolved = sign(7, SignState::Success { by_user_id: 9 });
    assert_eq!(Err(Rejection::AlreadyResolved), validate_influence(&resolved, 11));
    let failed = sign(7, SignState::Failed { by_user_id: 9 });
    assert_eq!(Err(Rejection::AlreadyResolved), validate_influence(&failed, 7));
}

#[test]
fn the_creator_cannot_influence() {
    assert_eq!(
        Err(Rejection::CreatorCannotInfluence),
        validate_influence(&sign(7, SignState::Created), 7)
    );
}

#[test]
fn anyone_else_may_influence_an_open_sign() {
    assert_eq!(Ok(()), validate_influence(&sign(7, SignState::Created), 9));
}

#[test]
fn a_roll_that_reaches_the_difficulty_succeeds() {
    // power 10 adds 10 / 2 - 5 = 0
    assert_eq!(
        Attempt { success: true, new_power: 9, power_changed: true },
        resolve_outcome(10, 12, 12, true)
    );
    assert_eq!(
        Attempt { success: true, new_power: 10, power_changed: false },
        resolve_outcome(10, 12, 12, false)
    );
    assert_eq!(
        Attempt { success: false, new_power: 11, power_changed: true },
        resolve_outcome(10, 12, 11, true)
    );
    assert_eq!(
        Attempt { success: false, new_power: 11, power_changed: true },
        resolve_outcome(10, 12, 11, false)
    );
}

#[test]
fn power_shifts_the_roll_by_half_less_five() {
    // power 16 adds 3, power 17 adds 3, power 18 adds 4
    assert!(!resolve_outcome(16, 14, 10, false).success);
    assert!(resolve_outcome(16, 13, 10, false).success);
    assert!(!resolve_outcome(17, 14, 10, false).success);
    assert!(resolve_outcome(18, 14, 10, false).success);
    // power 0 adds -5
    assert!(resolve_outcome(0, 15, 20, false).success);
    assert!(!resolve_outcome(0, 16, 20, false).success);
}

#[test]
fn half_of_a_negative_power_is_rounded_down() {
    // power -3 adds -2 - 5 = -7, power -4 adds -7 too, power -5 adds -8
    assert!(resolve_outcome(-3, -6, 1, false).success);
    assert!(!resolve_outcome(-3, -5, 1, false).success);
    assert!(resolve_outcome(-4, -6, 1, false).success);
    assert!(!resolve_outcome(-5, -6, 1, false).success);
    assert!(resolve_outcome(-5, -7, 1, false).success);
}

#[test]
fn extreme_powers_and_difficulties_do_not_overflow() {
    let a = resolve_outcome(i32::MAX - 1, i32::MAX, 20, true);
    assert_eq!(Attempt { success: false, new_power: i32::MAX, power_changed: true }, a);
    let b = resolve_outcome(i32::MIN + 1, i32::MIN, 1, true);
    assert_eq!(Attempt { success: true, new_power: i32::MIN, power_changed: true }, b);
    assert!(resolve_outcome(10, i32::MIN, i32::MIN, false).success);
    assert!(resolve_outcome(10, i32::MAX, i32::MAX, false).success);
    assert!(!resolve_outcome(10, i32::MAX, i32::MAX - 1, false).success);
    assert!(resolve_outcome(12, i32::MAX, i32::MAX - 1, false).success);
    assert!(!resolve_outcome(8, i32::MIN, i32::MIN, false).success);
}

#[test]
fn powers_at_the_ends_of_the_range_move_where_there_is_room() {
    let top = i32::MAX;
    let bottom = i32::MIN;
    // the greatest power succeeds against 12 with any roll
    assert_eq!(
        Attempt { success: true, new_power: top - 1, power_changed: true },
        resolve_outcome(top, 12, 1, true)
    );
    assert_eq!(
        Attempt { success: true, new_power: top, power_changed: false },
        resolve_outcome(top, 12, 1, false)
    );
    // the least power fails against 12 with any roll
    assert_eq!(
        Attempt { success: false, new_power: bottom + 1, power_changed: true },
        resolve_outcome(bottom, 12, 20, true)
    );
    assert_eq!(Some(resolve_outcome(top, 12, 1, true)), checked_outcome(top, 12, 1, true));
    assert_eq!(Some(resolve_outcome(bottom, 12, 20, false)), checked_outcome(bottom, 12, 20, false));
    assert_eq!(Some(resolve_outcome(10, 12, 12, true)), checked_outcome(10, 12, 12, true));
    // no room above the greatest power for a failure
    assert_eq!(None, checked_outcome(top, i32::MAX, 20, true));
    assert_eq!(None, checked_outcome(top, i32::MAX, 20, false));
    // no room below the least power for a success that costs a point
    assert_eq!(None, checked_outcome(bottom, i32::MIN, 1, true));
    assert_eq!(
        Some(Attempt { success: true, new_power: bottom, power_changed: false }),
        checked_outcome(bottom, i32::MIN, 1, false)
    );
}

#[test]
fn a_roll_reaches_the_difficulty_with_the_modifier() {
    assert!(reaches(10, 12, 12));
    assert!(!reaches(10, 12, 11));
    assert!(reaches(14, 12, 10));
    assert!(!reaches(-3, -5, 1));
    assert!(reaches(-3, -6, 1));
    assert!(reaches(i32::MAX, i32::MAX, i32::MAX));
    assert!(!reaches(i32::MIN, i32::MIN, i32::MIN));
}

#[test]
fn an_attempt_moves_the_power_by_one_step_at_most() {
    for _ in 0..200 {
        for power in [-7, 0, 9, 10, 25] {
            let attempt = resolve_attempt(power, 11);
            if attempt.success {
                assert!(attempt.new_power == power || attempt.new_power == power - 1);
            } else {
                assert_eq!(power + 1, attempt.new_power);
            }
            assert_eq!(attempt.power_changed, attempt.new_power != power);
        }
    }
}

#[test]
fn an_attempt_is_decided_by_a_roll_between_one_and_twenty() {
    for _ in 0..200 {
        // power 10 adds nothing: difficulty 1 is always reached, 21 never
        assert!(resolve_attempt(10, 1).success);
        assert!(!resolve_attempt(10, 21).success);
    }
}

#[test]
fn the_faces_name_the_sign_in_ascending_order() {
    assert_eq!("1234", sign_id(&[1, 2, 3, 4]));
    assert_eq!("1234", sign_id(&[4, 3, 2, 1]));
    assert_eq!("1134", sign_id(&[3, 1, 4, 1]));
    assert_eq!("4444", sign_id(&[4, 4, 4, 4]));
    assert_eq!("1222", sign_id(&[2, 2, 1, 2]));
}
