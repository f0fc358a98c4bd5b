use enoa_signs::clock::{EARLIEST_SECONDS, LATEST_SECONDS};
use enoa_signs::config::ServerConf;
use enoa_signs::db::Timestamp;

#[test]
fn the_epoch_falls_on_a_day_around_the_first_of_1970() {
    let epoch = Timestamp::at(0).unwrap();
    assert_eq!(0, epoch.seconds);
    // 1970-01-01 is day 719163; the local date may be a day off
    assert!((719_162..=719_164).contains(&epoch.day), "{}", epoch.day);
}

#[test]
fn the_local_day_is_the_universal_day_or_next_to_it() {
    for seconds in [
        EARLIEST_SECONDS,
        -62_135_596_800,
        -86_401,
        -86_400,
        -1,
        0,
        1,
        86_399,
        86_400,
        951_782_400,
        1_700_000_000,
        1_700_006_400,
        4_102_444_800,
        LATEST_SECONDS,
    ] {
        let moment = Timestamp::at(seconds).unwrap();
        let universal = seconds.div_euclid(86_400) + 719_163;
        assert_eq!(seconds, moment.seconds);
        assert!((universal - 1..=universal + 1).contains(&(moment.day as i64)), "{}", seconds);
    }
    let now = Timestamp::now().unwrap();
    let universal = now.seconds.div_euclid(86_400) + 719_163;
    assert!((universal - 1..=universal + 1).contains(&(now.day as i64)));
}

#[test]
fn days_advance_with_the_seconds() {
    let start = Timestamp::at(1_700_000_000).unwrap();
    let month_later = Timestamp::at(1_700_000_000 + 30 * 86_400).unwrap();
    assert!((29..=31).contains(&(month_later.day - start.day)));
    let same_minute = Timestamp::at(1_700_000_030).unwrap();
    assert!((0..=1).contains(&(same_minute.day - start.day)));
    assert!(start.is_today(&start));
    assert!(month_later.is_today(&start));
    assert!(!start.is_today(&month_later));
}

#[test]
fn moments_out_of_range_have_no_day() {
    assert!(Timestamp::at(EARLIEST_SECONDS).is_some());
    assert!(Timestamp::at(LATEST_SECONDS).is_some());
    assert!(Timestamp::at(EARLIEST_SECONDS - 1).is_none());
    assert!(Timestamp::at(LATEST_SECONDS + 1).is_none());
    assert!(Timestamp::at(i64::MAX).is_none());
    assert!(Timestamp::at(i64::MIN).is_none());
}

#[test]
fn now_is_after_2023() {
    let now = Timestamp::now().unwrap();
    assert!(now.seconds > 1_700_000_000);
    assert_eq!(Timestamp::at(now.seconds).unwrap().day, now.day);
    assert!(now.day > 738_000);
}

#[test]
fn the_configuration_keeps_address_and_key() {
    let key = "67c6bd767ca099e79efac9fcce4d2022a63bf7dea780e7f3d813f694c1597089";
    let conf = ServerConf::new("0.0.0.0:8080".to_string(), key.to_string());
    assert_eq!("0.0.0.0:8080", conf.address());
    assert_eq!(key, conf.discord_pk());
    assert_eq!(
        Some([
            0x67, 0xC6, 0xBD, 0x76, 0x7C, 0xA0, 0x99, 0xE7, 0x9E, 0xFA, 0xC9, 0xFC, 0xCE, 0x4D, 0x20,
            0x22, 0xA6, 0x3B, 0xF7, 0xDE, 0xA7, 0x80, 0xE7, 0xF3, 0xD8, 0x13, 0xF6, 0x94, 0xC1, 0x59,
            0x70, 0x89
        ]),
        conf.public_key()
    );
    let copy = conf.clone();
    assert_eq!(conf.address(), copy.address());
    assert_eq!(conf.discord_pk(), copy.discord_pk());
}

#[test]
fn a_key_of_the_wrong_size_is_no_key() {
    for key in ["", "67c6", "zz", &"0".repeat(63), &"0".repeat(66), &"g".repeat(64)] {
        assert_eq!(None, ServerConf::new(String::new(), key.to_string()).public_key(), "{}", key);
    }
    assert_eq!(Some([0u8; 32]), ServerConf::new(String::new(), "0".repeat(64)).public_key());
}
