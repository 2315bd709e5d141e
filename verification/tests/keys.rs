use stream_gate::keys::{check_key, fresh_salt, has_overlong_lanes, hash_key, is_hash_text};
use stream_gate::uuids::{fresh_uuid, parse_uuid, uuid_text, InvalidUuid};

const SALT: &str = "AAAAAAAAAAAAAAAAAAAAAA";

#[test]
fn a_key_opens_what_it_was_hashed_for() {
    let hash = hash_key("hunter42", SALT);
    assert!(hash.starts_with("$argon2id$v=19$m=19456,t=2,p=1$AAAAAAAAAAAAAAAAAAAAAA$"));
    assert!(is_hash_text(&hash));
    assert_eq!(check_key(&hash, "hunter42"), Some(true));
    assert_eq!(check_key(&hash, "hunter43"), Some(false));
    assert_eq!(check_key(&hash, ""), Some(false));
}

#[test]
fn the_hash_depends_on_key_and_salt_alone() {
    assert_eq!(hash_key("a", SALT), hash_key("a", SALT));
    assert_ne!(hash_key("a", SALT), hash_key("b", SALT));
    assert_ne!(hash_key("a", SALT), hash_key("a", "AAAAAAAAAAAAAAAAAAAAAQ"));
}

#[test]
fn the_hash_is_that_of_the_hashing_crate() {
    let salt = argon2::password_hash::Salt::from_b64(SALT).unwrap();
    let hash =
        argon2::PasswordHash::generate(argon2::Argon2::default(), "hunter42", salt).unwrap();
    assert_eq!(hash_key("hunter42", SALT), hash.to_string());
}

#[test]
fn an_empty_key_can_be_hashed() {
    let hash = hash_key("", SALT);
    assert_eq!(check_key(&hash, ""), Some(true));
    assert_eq!(check_key(&hash, " "), Some(false));
}

#[test]
fn salts_are_sixteen_bytes_in_b64() {
    for _ in 0..50 {
        let salt = fresh_salt();
        assert_eq!(salt.len(), 22);
        assert!(salt.chars().all(|c| c.is_ascii_alphanumeric() || c == '+' || c == '/'));
        assert!("AQgw".contains(salt.chars().last().unwrap()));
    }
    assert_ne!(fresh_salt(), fresh_salt());
}

#[test]
fn a_fresh_salt_can_be_used() {
    let hash = hash_key("key", &fresh_salt());
    assert_eq!(check_key(&hash, "key"), Some(true));
}

#[test]
fn what_is_no_hash_is_noticed() {
    for text in ["", "secret", "$", "$argon2id$v=x", "argon2id$v=19"] {
        assert!(!is_hash_text(text), "{}", text);
        assert_eq!(check_key(text, "key"), None);
    }
}

#[test]
fn a_hash_without_output_opens_nothing() {
    assert!(is_hash_text("$argon2id"));
    assert_eq!(check_key("$argon2id", ""), Some(false));
}

#[test]
fn too_many_lanes_open_nothing() {
    let output = "AAAAAAAAAAAAAAAAAAAAAAAAAAAAAAAAAAAAAAAAAAA";
    let hash = |lanes: &str| format!("$argon2id$v=19$m=64,t=1,{}${}${}", lanes, SALT, output);
    assert!(is_hash_text(&hash("p=4294967295")));
    assert!(has_overlong_lanes(&hash("p=4294967295")));
    assert_eq!(check_key(&hash("p=4294967295"), "key"), Some(false));
    assert!(has_overlong_lanes(&hash("p=100000000")));
    assert_eq!(check_key(&hash("p=100000000"), "key"), Some(false));
    assert!(!has_overlong_lanes(&hash("p=16777216")));
    assert_eq!(check_key(&hash("p=16777216"), "key"), Some(false));
    assert!(!has_overlong_lanes(&hash("p=123456789,p=1")));
    assert!(has_overlong_lanes(&hash("p=1,p=123456789")));
    assert!(!has_overlong_lanes(&hash("xp=123456789")));
    assert!(!has_overlong_lanes(""));
    assert!(!has_overlong_lanes("$p="));
    assert!(has_overlong_lanes("$p=123456789"));
}

#[test]
fn uuids_are_read_in_all_forms() {
    let number: u128 = 0x67e5504410b1426f9247bb680e5fe0c8;
    for text in [
        "67e55044-10b1-426f-9247-bb680e5fe0c8",
        "67E55044-10B1-426F-9247-BB680E5FE0C8",
        "67e5504410b1426f9247bb680e5fe0c8",
        "{67e55044-10b1-426f-9247-bb680e5fe0c8}",
        "urn:uuid:67e55044-10b1-426f-9247-bb680e5fe0c8",
    ] {
        assert_eq!(parse_uuid(text), Ok(number), "{}", text);
    }
}

#[test]
fn what_is_no_uuid_is_refused() {
    for text in ["", "67e55044", "67e55044-10b1-426f-9247-bb680e5fe0cg", " "] {
        assert_eq!(parse_uuid(text), Err(InvalidUuid), "{}", text);
    }
}

#[test]
fn uuids_are_written_hyphenated_in_lower_case() {
    assert_eq!(
        uuid_text(0x67e5504410b1426f9247bb680e5fe0c8),
        "67e55044-10b1-426f-9247-bb680e5fe0c8"
    );
    assert_eq!(uuid_text(0), "00000000-0000-0000-0000-000000000000");
    assert_eq!(uuid_text(u128::MAX), "ffffffff-ffff-ffff-ffff-ffffffffffff");
}

#[test]
fn uuids_are_read_back_and_hold_no_slash() {
    for _ in 0..50 {
        let uuid = fresh_uuid();
        let text = uuid_text(uuid);
        assert_eq!(text.len(), 36);
        assert!(!text.contains('/'));
        assert_eq!(parse_uuid(&text), Ok(uuid));
    }
}

#[test]
fn fresh_uuids_are_random_uuids() {
    let mut seen: Vec<u128> = Vec::new();
    for _ in 0..50 {
        let uuid = fresh_uuid();
        assert_eq!((uuid >> 76) & 0xf, 4);
        assert_eq!((uuid >> 62) & 3, 2);
        assert!(!seen.contains(&uuid));
        seen.push(uuid);
    }
}
