use cybertech_server::models::account::Account;
use cybertech_server::models::admin::Admin;
use cybertech_server::models::id::EntityId;
use cybertech_server::services::credentials::{
    admin_claims, check_secret, expiry_after, fresh_secrets, hash_secret, is_rotation_due,
    judge_admin_claims, matches_clear_secret, reaches_floor, rotate, rotate_if_due,
    strong_password, user_claims, FreshSecrets, PasswordPolicy, ADMIN_TOKEN_SECONDS,
    PASSWORD_LENGTH_MAX, PASSWORD_LENGTH_MIN, ROTATION_WINDOW_MS, STRENGTH_FLOOR,
    USER_TOKEN_SECONDS,
};
use cybertech_server::utilities::claims::{AdminClaims, AdminClaimsFields, UserClaimsFields};

const HOUR_MS: i64 = 3_600_000;
const MINUTE_MS: i64 = 60_000;
const T: i64 = 1_704_067_200_000;

fn admin(token: &str, password: &str, last_reset: i64) -> Admin {
    Admin {
        _id: EntityId { value: 1 },
        token: token.to_string(),
        password: password.to_string(),
        last_reset,
    }
}

fn account() -> Account {
    Account {
        _id: EntityId { value: 2 },
        username: "hunter_2".to_string(),
        email: "1234567@pdsb.net".to_string(),
        password: "$2b$12$hash".to_string(),
        verified: true,
        date_created: T,
    }
}

#[test]
fn constants_are_what_the_scheme_says() {
    assert_eq!(USER_TOKEN_SECONDS, 24 * 60 * 60);
    assert_eq!(ADMIN_TOKEN_SECONDS, 60 * 60);
    assert_eq!(ROTATION_WINDOW_MS, 6 * 60 * 60 * 1000);
    assert_eq!(STRENGTH_FLOOR, 90);
    assert_eq!(PASSWORD_LENGTH_MIN, 30);
    assert_eq!(PASSWORD_LENGTH_MAX, 45);
}

#[test]
fn hash_then_verify_round_trips() {
    let hash = hash_secret("hunter2").unwrap();
    assert_ne!(hash, "hunter2");
    assert!(hash.starts_with("$2b$12$"));
    assert_eq!(hash.len(), 60);
    assert!(check_secret("hunter2", &hash).unwrap());
}

#[test]
fn verify_refuses_another_password() {
    let hash = hash_secret("hunter2").unwrap();
    assert!(!check_secret("hunter3", &hash).unwrap());
}

#[test]
fn verify_refuses_near_misses() {
    let hash = "$2b$04$EGdrhbKUv8Oc9vGiXX0HQOxSg445d458Muh7DAHskb6QbtCvdxcie";
    assert!(check_secret("correctbatteryhorsestapler", hash).unwrap());
    assert!(!check_secret("correctbatteryhorsestaple", hash).unwrap());
    assert!(!check_secret("Correctbatteryhorsestapler", hash).unwrap());
    assert!(!check_secret("", hash).unwrap());
    assert!(!check_secret(hash, hash).unwrap());
}

#[test]
fn hashing_twice_gives_two_hashes_that_both_match() {
    let first = hash_secret("pw").unwrap();
    let second = hash_secret("pw").unwrap();
    assert_ne!(first, second);
    assert!(check_secret("pw", &second).unwrap());
}

#[test]
fn check_secret_fails_on_what_is_no_hash() {
    assert!(check_secret("hunter2", "hunter2").is_err());
    assert!(check_secret("hunter2", "").is_err());
    let error = check_secret("hunter2", "$2b$12$tooshort").unwrap_err();
    assert!(!error.message.is_empty());
}

#[test]
fn clear_secret_matches_itself() {
    assert!(matches_clear_secret("a6f2c1de-0000-4000-8000-000000000000",
        "a6f2c1de-0000-4000-8000-000000000000").unwrap());
}

#[test]
fn clear_secret_refuses_another() {
    assert!(!matches_clear_secret("a6f2c1de-0000-4000-8000-000000000000",
        "a6f2c1de-0000-4000-8000-000000000001").unwrap());
}

#[test]
fn clear_secret_refuses_a_longer_text_with_the_same_start() {
    let secret = "s".repeat(80);
    let mut candidate = "s".repeat(80);
    candidate.push('x');
    assert!(!matches_clear_secret(&candidate, &secret).unwrap());
}

#[test]
fn expiry_is_whole_seconds_plus_lifetime() {
    assert_eq!(expiry_after(0, 3600), Some(3600));
    assert_eq!(expiry_after(999, 3600), Some(3600));
    assert_eq!(expiry_after(1000, 3600), Some(3601));
    assert_eq!(expiry_after(T, 3600), Some(1_704_067_200 + 3600));
    assert_eq!(expiry_after(T + 999, 86_400), Some(1_704_067_200 + 86_400));
}

#[test]
fn expiry_is_none_before_the_epoch_or_past_the_machine() {
    assert_eq!(expiry_after(-1, 3600), None);
    assert_eq!(expiry_after(i64::MIN, 0), None);
    assert_eq!(expiry_after(T, usize::MAX), None);
    assert_eq!(expiry_after(0, usize::MAX), Some(usize::MAX));
    assert_eq!(expiry_after(1000, usize::MAX), None);
}

#[test]
fn user_claims_last_a_day() {
    let claims = user_claims(&account(), T).unwrap();
    assert_eq!(claims.username, "hunter_2");
    assert_eq!(claims.email, "1234567@pdsb.net");
    assert!(claims.verified);
    assert_eq!(claims.exp, 1_704_067_200 + 86_400);
    assert!(user_claims(&account(), -5).is_none());
}

#[test]
fn admin_claims_last_an_hour_and_carry_the_token() {
    let claims = admin_claims(&admin("token-a", "pw", 0), T).unwrap();
    assert_eq!(claims.token, "token-a");
    assert_eq!(claims.exp, 1_704_067_200 + 3_600);
    assert!(admin_claims(&admin("token-a", "pw", 0), -1).is_none());
}

#[test]
fn rotation_is_due_only_after_more_than_six_hours() {
    assert!(!is_rotation_due(T, T));
    assert!(!is_rotation_due(T, T + 6 * HOUR_MS - 1));
    assert!(!is_rotation_due(T, T + 6 * HOUR_MS));
    assert!(is_rotation_due(T, T + 6 * HOUR_MS + 1));
    assert!(is_rotation_due(T, T + 7 * HOUR_MS));
    assert!(!is_rotation_due(T, T - HOUR_MS));
}

#[test]
fn rotation_due_at_the_ends_of_the_range() {
    assert!(is_rotation_due(i64::MIN, i64::MAX));
    assert!(!is_rotation_due(i64::MAX, i64::MIN));
    assert!(is_rotation_due(-1, i64::MAX));
    assert!(is_rotation_due(i64::MIN, 0));
    assert!(!is_rotation_due(0, ROTATION_WINDOW_MS));
    assert!(is_rotation_due(-1, ROTATION_WINDOW_MS));
}

#[test]
fn rotate_replaces_all_three_and_keeps_the_identity() {
    let mut record = admin("old-token", "old-pw", T);
    rotate(&mut record, "new-token".to_string(), "new-pw".to_string(), T + 7 * HOUR_MS);
    assert_eq!(record._id, EntityId { value: 1 });
    assert_eq!(record.token, "new-token");
    assert_eq!(record.password, "new-pw");
    assert_eq!(record.last_reset, T + 7 * HOUR_MS);
}

#[test]
fn rotate_if_due_rotates_once_and_not_again_right_after() {
    let mut record = admin("old-token", "old-pw", T);
    let now = T + 6 * HOUR_MS + 1;
    let first = FreshSecrets { token: "token-1".to_string(), password: "pw-1".to_string() };
    assert!(rotate_if_due(&mut record, first, now));
    assert_eq!(record.token, "token-1");
    assert_eq!(record.password, "pw-1");
    assert_eq!(record.last_reset, now);
    let second = FreshSecrets { token: "token-2".to_string(), password: "pw-2".to_string() };
    assert!(!rotate_if_due(&mut record, second, now));
    assert_eq!(record.token, "token-1");
    assert_eq!(record.password, "pw-1");
    assert_eq!(record.last_reset, now);
}

#[test]
fn rotate_if_due_leaves_fresh_secrets_alone() {
    let mut record = admin("old-token", "old-pw", T);
    let fresh = FreshSecrets { token: "token-1".to_string(), password: "pw-1".to_string() };
    assert!(!rotate_if_due(&mut record, fresh, T + 6 * HOUR_MS));
    assert_eq!(record.token, "old-token");
    assert_eq!(record.password, "old-pw");
    assert_eq!(record.last_reset, T);
}

#[test]
fn floor_is_ninety() {
    assert!(!reaches_floor(0));
    assert!(!reaches_floor(89));
    assert!(reaches_floor(90));
    assert!(reaches_floor(100));
}

#[test]
fn admin_policy_switches_everything_on() {
    let policy = PasswordPolicy::for_admin(33);
    assert_eq!(policy.length, 33);
    assert!(policy.numbers);
    assert!(policy.lowercase_letters);
    assert!(policy.uppercase_letters);
    assert!(policy.symbols);
    assert!(policy.spaces);
    assert!(policy.exclude_similar_characters);
    assert!(policy.strict);
}

fn score_of(password: &str) -> f64 {
    passwords::scorer::score(&passwords::analyzer::analyze(password))
}

#[test]
fn strong_password_has_the_length_and_the_strength() {
    for length in [30usize, 37, 45] {
        let password = strong_password(length, 1000).expect("a strong password within 1000 draws");
        assert_eq!(password.chars().count(), length);
        assert!(score_of(&password) >= 90.0, "{:?}", password);
        assert!(password.chars().any(|c| c.is_ascii_digit()));
        assert!(password.chars().any(|c| c.is_ascii_lowercase()));
        assert!(password.chars().any(|c| c.is_ascii_uppercase()));
        assert!(password.chars().any(|c| c == ' '));
        assert!(password.chars().any(|c| c.is_ascii_punctuation()));
        assert!(!password.chars().any(|c| "iI1loO0\"'`|".contains(c)));
        assert!(password
            .chars()
            .all(|c| c == ' ' || c.is_ascii_alphanumeric() || c.is_ascii_punctuation()));
    }
}

#[test]
fn update_admin_sets_a_password_of_every_class() {
    let mut record = cybertech_server::models::admin::Admin {
        _id: EntityId { value: 9 },
        token: "old-token".to_string(),
        password: "old-pw".to_string(),
        last_reset: T,
    };
    let update = cybertech_server::services::db::update_admin(&mut record, T + 1, 1000).unwrap();
    assert_eq!(update.selection.collection, cybertech_server::services::db::Collection::Admin);
    assert_eq!(record._id, EntityId { value: 9 });
    assert_eq!(record.last_reset, T + 1);
    assert_eq!(record.token.chars().count(), 36);
    let password = &record.password;
    assert!((30..=45).contains(&password.chars().count()));
    assert!(score_of(password) >= 90.0);
    assert!(password.chars().any(|c| c.is_ascii_digit()));
    assert!(password.chars().any(|c| c.is_ascii_lowercase()));
    assert!(password.chars().any(|c| c.is_ascii_uppercase()));
    assert!(password.chars().any(|c| c == ' '));
    assert!(password.chars().any(|c| c.is_ascii_punctuation()));
    assert!(!password.chars().any(|c| "iI1loO0\"'`|".contains(c)));
}

#[test]
fn every_hash_is_written_at_cost_twelve_in_sixty_characters() {
    for password in ["", "hunter2", "ünïcödé", "a much longer password than most people would type"] {
        let hash = hash_secret(password).unwrap();
        assert_eq!(hash.chars().count(), 60);
        assert_eq!(&hash[..7], "$2b$12$");
    }
}

#[test]
fn strong_password_without_tries_is_none() {
    assert!(strong_password(30, 0).is_none());
}

#[test]
fn strong_password_of_a_length_the_generator_refuses_is_none() {
    assert!(strong_password(0, 1000).is_none());
    assert!(strong_password(4, 1000).is_none());
}

#[test]
fn short_passwords_are_never_strong_enough() {
    assert!(strong_password(5, 50).is_none());
}

#[test]
fn fresh_secrets_are_new_each_time() {
    let first = fresh_secrets(1000).unwrap();
    let second = fresh_secrets(1000).unwrap();
    assert_eq!(first.token.len(), 36);
    assert_eq!(first.token.matches('-').count(), 4);
    assert_ne!(first.token, second.token);
    assert_ne!(first.password, second.password);
    let length = first.password.chars().count();
    assert!((30..=45).contains(&length));
    assert!(score_of(&first.password) >= 90.0);
    assert!(fresh_secrets(0).is_none());
}

#[test]
fn fresh_secrets_lengths_cover_the_range() {
    let mut seen = std::collections::BTreeSet::new();
    for _ in 0..400 {
        let length = fresh_secrets(1000).unwrap().password.chars().count();
        assert!((30..=45).contains(&length));
        seen.insert(length);
    }
    assert!(seen.len() > 8, "{:?}", seen);
}

#[test]
fn admin_claims_accepted_59_minutes_after_signing() {
    let record = admin("token-a", "pw", T);
    let claims = admin_claims(&record, T);
    assert_eq!(judge_admin_claims(&claims, &record.token, T + 59 * MINUTE_MS).unwrap(), true);
}

#[test]
fn admin_claims_refused_61_minutes_after_signing() {
    let record = admin("token-a", "pw", T);
    let claims = admin_claims(&record, T);
    assert_eq!(judge_admin_claims(&claims, &record.token, T + 61 * MINUTE_MS).unwrap(), false);
}

#[test]
fn admin_claims_hour_boundary_is_inclusive() {
    let record = admin("token-a", "pw", T);
    let claims = admin_claims(&record, T);
    assert_eq!(judge_admin_claims(&claims, &record.token, T + 60 * MINUTE_MS + 999).unwrap(), true);
}

#[test]
fn admin_claims_lapse_one_second_past_the_hour() {
    let record = admin("token-a", "pw", T);
    let claims = admin_claims(&record, T);
    assert_eq!(judge_admin_claims(&claims, &record.token, T + 60 * MINUTE_MS + 1000).unwrap(), false);
}

#[test]
fn admin_claims_refused_at_once_when_the_token_rotates() {
    let mut record = admin("token-a", "pw", T);
    let claims = admin_claims(&record, T);
    rotate(&mut record, "token-b".to_string(), "pw-b".to_string(), T + MINUTE_MS);
    assert_eq!(judge_admin_claims(&claims, &record.token, T + MINUTE_MS).unwrap(), false);
}

#[test]
fn unread_admin_claims_are_refused() {
    assert_eq!(judge_admin_claims(&None, "token-a", T).unwrap(), false);
}

#[test]
fn claims_fields_complete_only_when_all_are_there() {
    let full = AdminClaimsFields { token: Some("t".to_string()), exp: Some(5) };
    let claims: AdminClaims = full.into_claims().unwrap();
    assert_eq!(claims.token, "t");
    assert_eq!(claims.exp, 5);
    assert!(AdminClaimsFields { token: None, exp: Some(5) }.into_claims().is_none());
    assert!(AdminClaimsFields { token: Some("t".to_string()), exp: None }.into_claims().is_none());
    let user = UserClaimsFields {
        username: Some("u".to_string()),
        email: Some("e".to_string()),
        verified: Some(false),
        exp: Some(9),
    };
    let read = user.into_claims().unwrap();
    assert_eq!(read.username, "u");
    assert_eq!(read.email, "e");
    assert!(!read.verified);
    assert_eq!(read.exp, 9);
    for missing in 0..4 {
        let fields = UserClaimsFields {
            username: if missing == 0 { None } else { Some("u".to_string()) },
            email: if missing == 1 { None } else { Some("e".to_string()) },
            verified: if missing == 2 { None } else { Some(true) },
            exp: if missing == 3 { None } else { Some(9) },
        };
        assert!(fields.into_claims().is_none());
    }
}
