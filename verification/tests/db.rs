use chartered::db::crates::{version_insert_outcome, Crate, CrateWithPermissions};
use chartered::db::server_private_key::{
    private_key_bytes, KeyPair, PrivateKeyError, ServerPrivateKey,
};
use chartered::db::users::{User, UserSession, UserSshKey};
use chartered::db::{Error, InsertOutcome};
use chartered::fs::{FileReference, FileSystemKind};
use chartered::permissions::UserPermission;
use chartered::types::{CrateFeatures, CrateVersion, CrateVersionMetadata};
use chartered::uuid::Uuid;

#[test]
fn connection_uris() {
    assert_eq!(
        chartered::db::sqlite::parse_connection_uri("sqlite://chartered.db"),
        Ok("chartered.db".to_string())
    );
    assert_eq!(
        chartered::db::sqlite::parse_connection_uri("postgres://x"),
        Err(Error::SqliteConnectionUri)
    );
    assert_eq!(
        chartered::db::postgres::parse_connection_uri("postgres://user@host/db"),
        Ok("postgres://user@host/db")
    );
    assert_eq!(
        chartered::db::postgres::parse_connection_uri("postgresql://user@localhost/chartered"),
        Ok("postgresql://user@localhost/chartered")
    );
    assert_eq!(
        chartered::db::postgres::parse_connection_uri("mysql://user@localhost/chartered"),
        Err(Error::PostgresConnectionUri)
    );
}

#[test]
fn status_codes() {
    assert_eq!(Error::MissingCrate.status_code(), 404);
    assert_eq!(
        Error::MissingCratePermission(UserPermission::visible()).status_code(),
        404
    );
    assert_eq!(
        Error::MissingCratePermission(UserPermission::publish_version()).status_code(),
        403
    );
    assert_eq!(Error::VersionConflict("1.0.0".to_string()).status_code(), 400);
    assert_eq!(Error::Query.status_code(), 500);
}

fn sample_crate() -> Crate {
    Crate {
        id: 4,
        name: "old-name".to_string(),
        organisation_id: 1,
        readme: None,
        description: None,
        repository: None,
        homepage: None,
        documentation: None,
    }
}

#[test]
fn publishing_a_version() {
    let given = CrateVersion {
        name: "new-name".to_string(),
        vers: "1.2.3".to_string(),
        deps: vec![],
        features: CrateFeatures(vec![]),
        links: None,
    };
    let metadata = CrateVersionMetadata {
        description: Some("d".to_string()),
        readme: None,
        repository: None,
        homepage: None,
        documentation: None,
    };
    let file = FileReference {
        file_system: FileSystemKind::Local,
        reference: Uuid(1),
    };
    let refused = CrateWithPermissions {
        crate_: sample_crate(),
        permissions: UserPermission::visible(),
    };
    assert!(matches!(
        refused.publish_version(9, &file, "sum".to_string(), 10, given.clone(), metadata.clone()),
        Err(Error::MissingCratePermission(p)) if p == UserPermission::publish_version()
    ));
    let allowed = CrateWithPermissions {
        crate_: sample_crate(),
        permissions: UserPermission::all(),
    };
    let rows = allowed
        .publish_version(9, &file, "sum".to_string(), 10, given, metadata)
        .ok()
        .unwrap();
    assert_eq!(rows.crate_update.id, 4);
    assert_eq!(rows.crate_update.name, "new-name");
    assert_eq!(rows.crate_update.description.as_deref(), Some("d"));
    assert_eq!(
        rows.new_version.filesystem_object,
        "local:00000000-0000-0000-0000-000000000001"
    );
    assert_eq!(rows.new_version.version, "1.2.3");
    assert_eq!(rows.new_version.user_id, 9);
    assert_eq!(
        version_insert_outcome(InsertOutcome::UniqueViolation, "1.2.3".to_string()),
        Err(Error::VersionConflict("1.2.3".to_string()))
    );
    assert_eq!(
        version_insert_outcome(InsertOutcome::Inserted, "1.2.3".to_string()),
        Ok(())
    );
    assert_eq!(
        rows.outcome(InsertOutcome::UniqueViolation),
        Err(Error::VersionConflict("1.2.3".to_string()))
    );
    assert_eq!(rows.outcome(InsertOutcome::Inserted), Ok(()));
    assert_eq!(rows.outcome(InsertOutcome::Failed), Err(Error::Query));
}

#[test]
fn hidden_crates_look_missing() {
    assert_eq!(
        Crate::find_by_name(Some((sample_crate(), UserPermission::publish_version()))),
        Err(Error::MissingCratePermission(UserPermission::visible()))
    );
    assert_eq!(Crate::find_by_name(None), Err(Error::MissingCrate));
}

#[test]
fn server_keys() {
    let key = ServerPrivateKey {
        id: 1,
        ssh_key_type: "ed25519".to_string(),
        ssh_private_key: vec![7u8; 64],
    };
    let pair = key.into_private_key().unwrap();
    assert_eq!(private_key_bytes(&pair).unwrap(), vec![7u8; 64]);
    let KeyPair::Ed25519(secret) = pair;
    assert_eq!(secret.key.len(), 64);
    let short = ServerPrivateKey {
        id: 1,
        ssh_key_type: "ed25519".to_string(),
        ssh_private_key: vec![7u8; 10],
    };
    assert_eq!(
        short.into_private_key().err(),
        Some(PrivateKeyError::InvalidPrivateKey("ed25519".to_string()))
    );
    let rsa = ServerPrivateKey {
        id: 1,
        ssh_key_type: "rsa".to_string(),
        ssh_private_key: vec![],
    };
    assert_eq!(
        rsa.into_private_key().err(),
        Some(PrivateKeyError::UnknownPrivateKeyType("rsa".to_string()))
    );
    assert_eq!(
        PrivateKeyError::from_insert(InsertOutcome::UniqueViolation),
        Ok(())
    );
    assert_eq!(
        PrivateKeyError::from_insert(InsertOutcome::Failed),
        Err(PrivateKeyError::Query)
    );
}

#[test]
fn users_and_keys() {
    let user = User {
        id: 1,
        uuid: chartered::uuid::SqlUuid(Uuid(2)),
        username: "jordan".to_string(),
        password: None,
        name: Some("Jordan".to_string()),
        nick: None,
        email: None,
        external_profile_url: None,
        picture_url: None,
    };
    assert_eq!(user.display_name(), "Jordan");
    let key = UserSession::generate_session_key();
    assert_eq!(key.len(), 48);
    assert!(key.chars().all(|c| c.is_ascii_alphanumeric()));
    assert_eq!(
        UserSshKey::format_fingerprint(&[0x01, 0xab, 0xff]),
        "01:ab:ff"
    );
    assert_eq!(
        User::split_ssh_key("ssh-ed25519 AAAA comment"),
        Ok(("AAAA".to_string(), "comment".to_string()))
    );
    assert_eq!(
        User::split_ssh_key("ssh-ed25519 AAAA"),
        Ok(("AAAA".to_string(), "(none)".to_string()))
    );
    assert_eq!(User::split_ssh_key("   "), Err(Error::KeyParse));
}
