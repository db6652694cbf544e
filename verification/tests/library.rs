use mirrorfour_api::api::admin_guard;
use mirrorfour_api::api::auth::post_login;
use mirrorfour_api::api::timeframes::{
    get_timeframe, get_timeframe_at, get_timeframes, get_timeframes_at, localize_timeframe,
    localize_timeframes, post_user_timeframes, post_user_timeframes_at, posted_timeframe,
    shift_slot, utc_insert_timeframe, week_start_at, week_start_for_reading, PostTimeframe,
};
use mirrorfour_api::api::users::{insert_user_with_salt, post_users, PostUser};
use mirrorfour_api::db::timeframes::{InsertTimeframe, Timeframe as DbTimeframe};
use mirrorfour_api::db::users::User as DbUser;
use mirrorfour_api::session::{checked_session_key, session_key, InvalidSessionKey};
use mirrorfour_api::time::{day_of_instant, second_of_instant, weekday, TimeOfDay};
use mirrorfour_api::types::{low_byte, users_from_db, InvalidRole, Role, Timeframe, User};

// 2024-01-01, a Monday, in days since the epoch.
const JAN_1_2024: i64 = 19723;
// 2024-07-01, a Monday.
const JUL_1_2024: i64 = 19905;
// 2024-03-25, the Monday of the week in which Berlin moves its clocks forward.
const MAR_25_2024: i64 = 19807;
// 2024-10-21, the Monday of the week in which Berlin moves its clocks back.
const OCT_21_2024: i64 = 20017;

const EXAMPLE_HASH: &str =
    "$argon2i$v=19$m=4096,t=3,p=1$c29tZXNhbHQ$iWh06vD8Fy27wf9npn6FXWiCX4K6pW6Ue1Bnzz07Z8A";

fn time(secs: u32) -> TimeOfDay {
    TimeOfDay::new(secs, 0).unwrap()
}

fn timeframe(day: i32, secs: u32) -> Timeframe {
    Timeframe { id: 7, user_id: 3, day, start: time(secs), duration: 90 }
}

fn db_user(id: i32, password: &str, tz: &str, role: i32) -> DbUser {
    DbUser {
        id,
        username: "ana".to_string(),
        password: password.to_string(),
        name: "Ana".to_string(),
        tz: tz.to_string(),
        role,
    }
}

fn cheap_hash(password: &[u8]) -> String {
    let config = argon2::Config {
        mem_cost: 64,
        time_cost: 1,
        lanes: 1,
        ..argon2::Config::default()
    };
    argon2::hash_encoded(password, b"cheapsalt", &config).unwrap()
}

#[test]
fn role_numbers() {
    assert_eq!(Role::Admin.to_u8(), 0);
    assert_eq!(Role::User.to_u8(), 1);
    assert_eq!(Role::from_u8(0), Ok(Role::Admin));
    assert_eq!(Role::from_u8(1), Ok(Role::User));
}

#[test]
fn role_invalid_number() {
    assert_eq!(Role::from_u8(2), Err(InvalidRole { value: 2 }));
    assert_eq!(Role::from_u8(255), Err(InvalidRole { value: 255 }));
    assert_eq!(Role::from_u8(2).unwrap_err().message(), "Invalid value");
}

#[test]
fn role_round_trip() {
    for role in [Role::Admin, Role::User] {
        assert_eq!(Role::from_u8(role.to_u8()), Ok(role));
    }
    for value in 0..=255u8 {
        if let Ok(role) = Role::from_u8(value) {
            assert_eq!(role.to_u8(), value);
        }
    }
}

#[test]
fn low_byte_truncates() {
    assert_eq!(low_byte(0), 0);
    assert_eq!(low_byte(257), 1);
    assert_eq!(low_byte(-1), 255);
    assert_eq!(low_byte(-256), 0);
}

#[test]
fn guard_admits_admins_only() {
    assert!(admin_guard(Some(&db_user(1, "x", "UTC", 0))));
    assert!(!admin_guard(Some(&db_user(1, "x", "UTC", 1))));
    assert!(!admin_guard(Some(&db_user(1, "x", "UTC", 2))));
    assert!(!admin_guard(None));
}

#[test]
fn guard_reads_the_low_byte() {
    assert!(admin_guard(Some(&db_user(1, "x", "UTC", 256))));
    assert!(admin_guard(Some(&db_user(1, "x", "UTC", -256))));
    assert!(!admin_guard(Some(&db_user(1, "x", "UTC", 257))));
}

#[test]
fn guard_for_created_roles() {
    for role in [Role::Admin, Role::User] {
        let stored = db_user(1, "x", "UTC", role.to_u8() as i32);
        assert_eq!(admin_guard(Some(&stored)), role == Role::Admin);
    }
}

#[test]
fn user_from_row() {
    let u = User::from_db(db_user(4, "hash", "Europe/Berlin", 1));
    assert_eq!(u.id, 4);
    assert_eq!(u.username, "ana");
    assert_eq!(u.name, "Ana");
    assert_eq!(u.tz, "Europe/Berlin");
    assert_eq!(u.role, Role::User);
}

#[test]
fn user_from_row_refused() {
    assert!(User::try_from_db(db_user(4, "h", "Mars/Olympus", 0)).is_none());
    assert!(User::try_from_db(db_user(4, "h", "europe/berlin", 0)).is_none());
    assert!(User::try_from_db(db_user(4, "h", "UTC", 2)).is_none());
    assert_eq!(User::try_from_db(db_user(4, "h", "UTC", 256)).unwrap().role, Role::Admin);
}

#[test]
fn users_from_rows() {
    let rows = vec![db_user(1, "a", "UTC", 0), db_user(2, "b", "Asia/Tokyo", 1)];
    let users = users_from_db(rows).unwrap();
    assert_eq!(users.len(), 2);
    assert_eq!(users[0].id, 1);
    assert_eq!(users[0].role, Role::Admin);
    assert_eq!(users[1].tz, "Asia/Tokyo");
    assert_eq!(users[1].role, Role::User);
    let bad = vec![db_user(1, "a", "UTC", 0), db_user(2, "b", "Nowhere", 1)];
    assert!(users_from_db(bad).is_none());
    assert_eq!(users_from_db(vec![]).unwrap().len(), 0);
}

#[test]
fn timeframe_from_row() {
    let row = DbTimeframe { id: 1, user_id: 2, day: 3, start: time(600), duration: 30 };
    let t = Timeframe::from(row);
    assert_eq!(t, Timeframe { id: 1, user_id: 2, day: 3, start: time(600), duration: 30 });
}

#[test]
fn time_of_day_bounds() {
    assert_eq!(TimeOfDay::new(86399, 999_999_999), Some(TimeOfDay { secs: 86399, nanos: 999_999_999 }));
    assert!(TimeOfDay::new(86400, 0).is_none());
    assert!(TimeOfDay::new(59, 1_500_000_000).is_some());
    assert!(TimeOfDay::new(0, 2_000_000_000).is_none());
}

#[test]
fn calendar_arithmetic() {
    assert_eq!(weekday(0), 3);
    assert_eq!(weekday(JAN_1_2024), 0);
    assert_eq!(weekday(-1), 2);
    assert_eq!(weekday(-4), 6);
    assert_eq!(day_of_instant(-1), -1);
    assert_eq!(second_of_instant(-1), 86399);
    assert_eq!(day_of_instant(86400), 1);
    assert_eq!(second_of_instant(90000), 3600);
}

#[test]
fn week_start_of_instants() {
    // 2024-01-03T12:00:00Z, a Wednesday
    let now = (JAN_1_2024 + 2) * 86400 + 43200;
    assert_eq!(week_start_at(now, 0), JAN_1_2024);
    assert_eq!(week_start_at(now, 3600), JAN_1_2024);
    // 2024-01-01T00:30:00Z seen an hour behind is still Sunday of the week before
    let early = JAN_1_2024 * 86400 + 1800;
    assert_eq!(week_start_at(early, -3600), JAN_1_2024 - 7);
    assert_eq!(week_start_at(early, 3600), JAN_1_2024);
}

#[test]
fn shifting_slots() {
    assert_eq!(shift_slot(JAN_1_2024, 0, time(84600), 3600), (1, time(1800)));
    assert_eq!(shift_slot(JAN_1_2024, 0, time(1800), -3600), (6, time(84600)));
    assert_eq!(shift_slot(JAN_1_2024, 9, time(100), 0), (2, time(100)));
    assert_eq!(shift_slot(JAN_1_2024, -1, time(100), 0), (6, time(100)));
    let leap = TimeOfDay { secs: 86399, nanos: 1_200_000_000 };
    assert_eq!(shift_slot(JAN_1_2024, 0, leap, 1), (1, TimeOfDay { secs: 0, nanos: 1_200_000_000 }));
}

#[test]
fn localize_in_berlin_winter_and_summer() {
    let winter = localize_timeframe(timeframe(0, 84600), JAN_1_2024, "Europe/Berlin").unwrap();
    assert_eq!(winter, Timeframe { day: 1, start: time(1800), ..timeframe(0, 84600) });
    let summer = localize_timeframe(timeframe(0, 79200), JUL_1_2024, "Europe/Berlin").unwrap();
    assert_eq!(summer.day, 1);
    assert_eq!(summer.start, time(0));
    assert_eq!(summer.id, 7);
    assert_eq!(summer.duration, 90);
}

#[test]
fn localize_west_of_greenwich() {
    let t = localize_timeframe(timeframe(0, 10800), JAN_1_2024, "America/New_York").unwrap();
    assert_eq!((t.day, t.start), (6, time(79200)));
}

#[test]
fn localize_unknown_zone() {
    assert!(localize_timeframe(timeframe(0, 0), JAN_1_2024, "Atlantis/Capital").is_none());
}

#[test]
fn localize_lists() {
    let tfs = vec![timeframe(0, 84600), timeframe(3, 3600)];
    let out = localize_timeframes(&tfs, JAN_1_2024, "Europe/Berlin").unwrap();
    assert_eq!(out.len(), 2);
    assert_eq!((out[0].day, out[0].start), (1, time(1800)));
    assert_eq!((out[1].day, out[1].start), (3, time(7200)));
    assert!(localize_timeframes(&tfs, JAN_1_2024, "Nowhere").is_none());
    let far = vec![timeframe(0, 0), timeframe(i32::MAX, 0)];
    assert!(localize_timeframes(&far, JAN_1_2024, "UTC").is_none());
    assert_eq!(localize_timeframes(&vec![], JAN_1_2024, "UTC").unwrap().len(), 0);
}

#[test]
fn get_without_zone_is_unchanged() {
    let tf = timeframe(12, 500);
    assert_eq!(get_timeframe(tf, None), Some(tf));
    let tfs = vec![timeframe(12, 500), timeframe(-3, 0)];
    assert_eq!(get_timeframes(tfs.clone(), None), Some(tfs));
}

#[test]
fn get_in_utc_takes_weekday() {
    let t = get_timeframe(timeframe(9, 500), Some("UTC")).unwrap();
    assert_eq!((t.day, t.start), (2, time(500)));
    let out = get_timeframes(vec![timeframe(-1, 5), timeframe(6, 86399)], Some("Etc/UTC")).unwrap();
    assert_eq!((out[0].day, out[0].start), (6, time(5)));
    assert_eq!((out[1].day, out[1].start), (6, time(86399)));
}

#[test]
fn get_in_unknown_zone() {
    assert!(get_timeframe(timeframe(0, 0), Some("Nowhere/Else")).is_none());
    assert!(get_timeframes(vec![timeframe(0, 0)], Some("Nowhere/Else")).is_none());
}

#[test]
fn get_out_of_range_day() {
    assert!(get_timeframe(timeframe(i32::MAX, 0), Some("UTC")).is_none());
}

fn payload(day: i32, secs: u32, tz: &str) -> PostTimeframe {
    PostTimeframe { day, start: time(secs), duration: 45, tz: tz.to_string() }
}

#[test]
fn store_in_utc() {
    let row = utc_insert_timeframe(5, &payload(0, 3600, "Europe/Berlin"), JAN_1_2024).unwrap();
    assert_eq!(row, InsertTimeframe { user_id: 5, day: 0, start: time(0), duration: 45 });
    let row = utc_insert_timeframe(5, &payload(0, 1800, "Europe/Berlin"), JAN_1_2024).unwrap();
    assert_eq!((row.day, row.start), (6, time(84600)));
    let row = utc_insert_timeframe(5, &payload(2, 82800, "America/New_York"), JAN_1_2024).unwrap();
    assert_eq!((row.day, row.start), (3, time(14400)));
}

#[test]
fn store_refuses_gap_and_repeated_hour() {
    // 2024-03-31 02:30 does not occur in Berlin
    assert!(utc_insert_timeframe(5, &payload(6, 9000, "Europe/Berlin"), MAR_25_2024).is_none());
    // 2024-10-27 02:30 occurs twice in Berlin
    assert!(utc_insert_timeframe(5, &payload(6, 9000, "Europe/Berlin"), OCT_21_2024).is_none());
    // an hour later it is unique again
    let row = utc_insert_timeframe(5, &payload(6, 12600, "Europe/Berlin"), OCT_21_2024).unwrap();
    assert_eq!((row.day, row.start), (6, time(9000)));
}

#[test]
fn store_unknown_zone() {
    assert!(utc_insert_timeframe(5, &payload(0, 0, "Nowhere"), JAN_1_2024).is_none());
    assert!(post_user_timeframes(5, &payload(0, 0, "Nowhere")).is_none());
}

#[test]
fn post_in_utc() {
    let row = post_user_timeframes(8, &payload(3, 36000, "UTC")).unwrap();
    assert_eq!(row, InsertTimeframe { user_id: 8, day: 3, start: time(36000), duration: 45 });
    let row = post_user_timeframes(8, &payload(10, 36000, "UTC")).unwrap();
    assert_eq!(row.day, 3);
}

#[test]
fn post_answer_keeps_the_sent_slot() {
    let inserted = DbTimeframe { id: 11, user_id: 8, day: 6, start: time(84600), duration: 45 };
    let t = posted_timeframe(inserted, &payload(0, 1800, "Europe/Berlin"));
    assert_eq!(t, Timeframe { id: 11, user_id: 8, day: 0, start: time(1800), duration: 45 });
}

#[test]
fn post_then_get_reads_back() {
    for (day, secs, tz, ws) in [
        (0, 1800, "Europe/Berlin", JAN_1_2024),
        (4, 82800, "America/New_York", JAN_1_2024),
        (9, 43200, "Asia/Kolkata", JUL_1_2024),
        (-2, 600, "Pacific/Auckland", JUL_1_2024),
    ] {
        let row = utc_insert_timeframe(1, &payload(day, secs, tz), ws).unwrap();
        let stored = Timeframe { id: 1, user_id: 1, day: row.day, start: row.start, duration: 45 };
        let read = localize_timeframe(stored, ws, tz).unwrap();
        assert_eq!(read.day, day.rem_euclid(7));
        assert_eq!(read.start, time(secs));
    }
}

#[test]
fn login_selects_matching_user() {
    let users = vec![db_user(1, EXAMPLE_HASH, "UTC", 1)];
    assert_eq!(post_login(users, "password").map(|u| u.id), Some(1));
    let users = vec![db_user(1, EXAMPLE_HASH, "UTC", 1)];
    assert!(post_login(users, "wrong").is_none());
    assert!(post_login(vec![], "password").is_none());
}

#[test]
fn login_takes_last_match() {
    let users = vec![
        db_user(1, &cheap_hash(b"pw"), "UTC", 1),
        db_user(2, &cheap_hash(b"other"), "UTC", 1),
        db_user(3, &cheap_hash(b"pw"), "UTC", 0),
        db_user(4, "not a hash", "UTC", 0),
    ];
    let chosen = post_login(users, "pw").unwrap();
    assert_eq!(chosen.id, 3);
    assert_eq!(chosen.role, 0);
}

#[test]
fn login_ignores_malformed_hashes() {
    let users = vec![db_user(1, "plain", "UTC", 1), db_user(2, "", "UTC", 1)];
    assert!(post_login(users, "plain").is_none());
}

fn account(password: &str, role: Role) -> PostUser {
    PostUser {
        username: "bo".to_string(),
        password: password.to_string(),
        name: "Bo".to_string(),
        tz: "Europe/Paris".to_string(),
        role,
    }
}

#[test]
fn new_user_row() {
    let row = insert_user_with_salt(&account("hunter2", Role::Admin), b"0123456789abcdef").unwrap();
    assert_eq!(row.username, "bo");
    assert_eq!(row.name, "Bo");
    assert_eq!(row.tz, "Europe/Paris");
    assert_eq!(row.role, 0);
    assert!(row.password.starts_with("$argon2id$v=19$m=65536,t=3,p=1$"));
    assert!(argon2::verify_encoded(&row.password, b"hunter2").unwrap());
    assert!(insert_user_with_salt(&account("hunter2", Role::User), b"short").is_none());
}

#[test]
fn created_user_can_log_in() {
    let row = post_users(&account("s3cret", Role::User)).unwrap();
    assert_eq!(row.role, 1);
    let stored = DbUser {
        id: 9,
        username: row.username.clone(),
        password: row.password.clone(),
        name: row.name.clone(),
        tz: row.tz.clone(),
        role: row.role,
    };
    let others = vec![db_user(1, &cheap_hash(b"s3cret"), "UTC", 1), stored];
    assert_eq!(post_login(others, "s3cret").map(|u| u.id), Some(9));
}

#[test]
fn session_key_decodes_base64() {
    let key: Vec<u8> = (0..64).collect();
    assert_eq!(session_key("AAECAwQFBgcICQoLDA0ODxAREhMUFRYXGBkaGxwdHh8gISIjJCUmJygpKissLS4vMDEyMzQ1Njc4OTo7PD0+Pw=="), Ok(key));
    assert_eq!(session_key("not base64!"), Err(InvalidSessionKey::NotBase64));
    assert_eq!(checked_session_key("AAEC"), Err(InvalidSessionKey::TooShort));
    assert_eq!(checked_session_key("aGVsbG8="), Err(InvalidSessionKey::TooShort));
    assert_eq!(checked_session_key("not base64!"), Err(InvalidSessionKey::NotBase64));
    let long = "AAECAwQFBgcICQoLDA0ODxAREhMUFRYXGBkaGxwdHh8gISIjJCUmJygpKissLS4vMDEyMzQ1Njc4OTo7PD0+Pw==";
    assert_eq!(checked_session_key(long), Ok((0..64).collect::<Vec<u8>>()));
}


#[test]
fn new_user_unknown_zone() {
    let mut payload = account("pw", Role::User);
    payload.tz = "Moon/Tranquility".to_string();
    assert!(insert_user_with_salt(&payload, b"0123456789abcdef").is_none());
    assert!(post_users(&payload).is_none());
}

#[test]
fn new_user_row_can_be_shown() {
    let row = insert_user_with_salt(&account("pw", Role::Admin), b"0123456789abcdef").unwrap();
    let stored = DbUser {
        id: 12,
        username: row.username.clone(),
        password: row.password.clone(),
        name: row.name.clone(),
        tz: row.tz.clone(),
        role: row.role,
    };
    let shown = User::try_from_db(stored).unwrap();
    assert_eq!(shown.role, Role::Admin);
    assert_eq!(shown.tz, "Europe/Paris");
}

#[test]
fn created_account_logs_in_from_any_position() {
    let row = insert_user_with_salt(&account("pass", Role::User), b"0123456789abcdef").unwrap();
    let stored = DbUser {
        id: 21,
        username: row.username.clone(),
        password: row.password.clone(),
        name: row.name.clone(),
        tz: row.tz.clone(),
        role: row.role,
    };
    let users = vec![stored, db_user(22, &cheap_hash(b"other"), "UTC", 1), db_user(23, "junk", "UTC", 1)];
    assert_eq!(post_login(users, "pass").map(|u| u.id), Some(21));
}

// 2024-01-10T12:00:00Z, a Wednesday
const JAN_10_2024_NOON: i64 = 1_704_888_000;

#[test]
fn week_start_for_clock_readings() {
    assert_eq!(week_start_for_reading("UTC", Some(JAN_10_2024_NOON)), Some(JAN_1_2024 + 7));
    assert_eq!(week_start_for_reading("Pacific/Kiritimati", Some(JAN_10_2024_NOON)), Some(JAN_1_2024 + 7));
    assert_eq!(week_start_for_reading("UTC", None), None);
    assert_eq!(week_start_for_reading("Nowhere", Some(JAN_10_2024_NOON)), None);
    assert_eq!(week_start_for_reading("UTC", Some(i64::MAX)), None);
    assert_eq!(week_start_for_reading("UTC", Some(0)), Some(-3));
}

#[test]
fn read_at_clock_reading_in_berlin() {
    let rows = vec![Timeframe { id: 1, user_id: 5, day: 6, start: time(84600), duration: 60 }];
    let out = get_timeframes_at(&rows, "Europe/Berlin", Some(JAN_10_2024_NOON)).unwrap();
    assert_eq!(out, vec![Timeframe { id: 1, user_id: 5, day: 0, start: time(1800), duration: 60 }]);
    assert!(get_timeframes_at(&rows, "Europe/Berlin", None).is_none());
}

#[test]
fn read_at_clock_reading_in_new_york() {
    let rows = vec![Timeframe { id: 1, user_id: 2, day: 0, start: time(1800), duration: 30 }];
    let out = get_timeframes_at(&rows, "America/New_York", Some(JAN_10_2024_NOON)).unwrap();
    assert_eq!(out, vec![Timeframe { id: 1, user_id: 2, day: 6, start: time(70200), duration: 30 }]);
}

#[test]
fn read_one_at_clock_reading_in_tokyo() {
    let row = Timeframe { id: 7, user_id: 2, day: 3, start: time(72000), duration: 90 };
    let out = get_timeframe_at(row, "Asia/Tokyo", Some(JAN_10_2024_NOON)).unwrap();
    assert_eq!(out, Timeframe { id: 7, user_id: 2, day: 4, start: time(18000), duration: 90 });
    assert!(get_timeframe_at(row, "Asia/Tokyo", None).is_none());
}

#[test]
fn post_at_clock_reading_then_read_back() {
    let sent = payload(2, 32400, "Asia/Tokyo");
    let row = post_user_timeframes_at(4, &sent, Some(JAN_10_2024_NOON)).unwrap();
    assert_eq!(row, InsertTimeframe { user_id: 4, day: 2, start: time(0), duration: 45 });
    let stored = Timeframe { id: 30, user_id: row.user_id, day: row.day, start: row.start, duration: row.duration };
    // read a month later
    let later = JAN_10_2024_NOON + 30 * 86400;
    let out = get_timeframes_at(&vec![stored], "Asia/Tokyo", Some(later)).unwrap();
    assert_eq!((out[0].day, out[0].start, out[0].user_id), (2, time(32400), 4));
    assert!(post_user_timeframes_at(4, &sent, None).is_none());
}
