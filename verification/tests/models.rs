use auth_core::models::{PublicUser, Timestamp, User, PRETTY_PATTERN};
use auth_core::utils::format_datetime_pretty;

fn user_at(secs: i64) -> User {
    User {
        id: 0x550e8400e29b41d4a716446655440000,
        username: "carol".to_string(),
        email: "c@x.com".to_string(),
        password_hash: "$argon2id$stored".to_string(),
        created_at: Timestamp::from_unix(secs).unwrap(),
    }
}

#[test]
fn pattern_of_the_display_form() {
    assert_eq!(PRETTY_PATTERN, "%Y-%m-%d %H:%M:%S UTC");
}

#[test]
fn timestamp_keeps_its_seconds() {
    assert_eq!(Timestamp::from_unix(1_431_648_000).unwrap().secs(), 1_431_648_000);
    assert_eq!(Timestamp::from_unix(0).unwrap().secs(), 0);
    assert_eq!(Timestamp::from_unix(-1).unwrap().secs(), -1);
}

#[test]
fn timestamp_beyond_the_calendar_is_refused() {
    assert_eq!(Timestamp::from_unix(i64::MAX), None);
    assert_eq!(Timestamp::from_unix(i64::MIN), None);
}

#[test]
fn pretty_form_of_a_known_instant() {
    let dt = Timestamp::from_unix(1_431_648_000).unwrap();
    assert_eq!(format_datetime_pretty(dt), "2015-05-15 00:00:00 UTC");
}

#[test]
fn pretty_form_of_the_epoch() {
    assert_eq!(format_datetime_pretty(Timestamp::from_unix(0).unwrap()), "1970-01-01 00:00:00 UTC");
}

#[test]
fn pretty_form_pads_with_zeros() {
    let dt = Timestamp::from_unix(981_173_106).unwrap();
    assert_eq!(format_datetime_pretty(dt), "2001-02-03 04:05:06 UTC");
}

#[test]
fn pretty_form_before_the_epoch() {
    let dt = Timestamp::from_unix(-1).unwrap();
    assert_eq!(format_datetime_pretty(dt), "1969-12-31 23:59:59 UTC");
}

#[test]
fn pretty_form_at_the_end_of_a_leap_day() {
    let dt = Timestamp::from_unix(1_709_251_199).unwrap();
    assert_eq!(format_datetime_pretty(dt), "2024-02-29 23:59:59 UTC");
}

#[test]
fn pretty_form_is_not_the_number() {
    let dt = Timestamp::from_unix(1_431_648_000).unwrap();
    assert_ne!(format_datetime_pretty(dt), "1431648000");
}

#[test]
fn profile_keeps_identifier_name_and_address() {
    let profile = PublicUser::from(user_at(1_431_648_000));
    assert_eq!(
        profile,
        PublicUser {
            id: 0x550e8400e29b41d4a716446655440000,
            username: "carol".to_string(),
            email: "c@x.com".to_string(),
            created_at: "2015-05-15 00:00:00 UTC".to_string(),
        }
    );
}

#[test]
fn profile_through_into() {
    let profile: PublicUser = user_at(0).into();
    assert_eq!(profile.created_at, "1970-01-01 00:00:00 UTC");
    assert_eq!(profile.username, "carol");
}

#[test]
fn profile_shows_no_password_hash() {
    let profile = PublicUser::from(user_at(0));
    let shown = format!("{:?}", profile);
    assert!(!shown.contains("password_hash"));
    assert!(!shown.contains("$argon2id$stored"));
}
