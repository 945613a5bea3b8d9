use chartered::permissions::UserPermission;
use chartered::uuid::{SqlUuid, Uuid};

#[test]
fn permission_names_round_trip() {
    let p = UserPermission::visible().union(UserPermission::yank_version());
    let names: Vec<String> = p.to_names().iter().map(|s| s.to_string()).collect();
    assert_eq!(names, vec!["VISIBLE".to_string(), "YANK_VERSION".to_string()]);
    assert_eq!(UserPermission::from_names(&names), Ok(p));
    assert_eq!(
        UserPermission::names(),
        vec!["VISIBLE", "PUBLISH_VERSION", "YANK_VERSION", "MANAGE_USERS", "CREATE_CRATE"]
    );
    let bad = vec!["VISIBLE".to_string(), "FLY".to_string()];
    assert!(UserPermission::from_names(&bad).is_err());
}

#[test]
fn permission_sets() {
    let all = UserPermission::all();
    assert_eq!(all.bits(), 31);
    assert!(all.contains(UserPermission::manage_users()));
    assert!(!UserPermission::empty().contains(UserPermission::visible()));
    assert_eq!(UserPermission::from_bits_truncate(0xff).bits(), 31);
    assert_eq!(UserPermission::from_bits(64), None);
    let mut p = UserPermission::empty();
    p.insert(UserPermission::create_crate());
    assert!(p.contains(UserPermission::create_crate()));
    p.remove(UserPermission::create_crate());
    assert!(p.is_empty());
}

#[test]
fn uuid_text_and_bytes() {
    let u = Uuid(0xa1a2a3a4b1b2c1c2d1d2d3d4d5d6d7d8);
    assert_eq!(u.to_string(), "a1a2a3a4-b1b2-c1c2-d1d2-d3d4d5d6d7d8");
    assert_eq!(Uuid::parse_str(&u.to_string()), Some(u));
    assert_eq!(Uuid::parse_str("A1A2A3A4-B1B2-C1C2-D1D2-D3D4D5D6D7D8"), Some(u));
    assert_eq!(Uuid::parse_str("not a uuid"), None);
    let bytes = u.to_bytes();
    assert_eq!(bytes[0], 0xa1);
    assert_eq!(bytes.len(), 16);
    assert_eq!(Uuid::from_slice(&bytes), Some(u));
    assert_eq!(Uuid::from_slice(&bytes[..3]), None);
    let s = SqlUuid(u);
    assert_eq!(SqlUuid::from_sql(&s.to_sql()), Some(SqlUuid(u)));
    assert_ne!(SqlUuid::random(), SqlUuid::random());
}

#[test]
fn random_identifiers_are_version_4() {
    let text = Uuid::new_v4().to_string();
    assert_eq!(text.as_bytes()[14], b'4');
    assert!(matches!(text.as_bytes()[19], b'8' | b'9' | b'a' | b'b'));
    let SqlUuid(u) = SqlUuid::random();
    assert_eq!((u.0 >> 76) & 0xf, 4);
    assert_eq!((u.0 >> 62) & 0x3, 2);
}

#[test]
fn uuid_from_parsed_number() {
    assert_eq!(Uuid::from_parsed(Some(5)), Some(Uuid(5)));
    assert_eq!(Uuid::from_parsed(None), None);
    assert_eq!(
        Uuid::parse_str("00000000-0000-0000-0000-000000000010"),
        Some(Uuid(16))
    );
}
