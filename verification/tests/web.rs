use chartered::db::crates::{CrateDependencies, CrateVersion};
use chartered::fs::FilePointer;
use chartered::web::endpoints::cargo_api::download::{
    version_file, Error as DownloadError, ResponseOrRedirect,
};
use chartered::db::users::User;
use chartered::db::Error as DbError;
use chartered::permissions::UserPermission;
use chartered::uuid::{SqlUuid, Uuid};
use chartered::web::auth::openid::{
    decimal_string, encrypt_url_safe, nonce_text, oidc_username, open_decoded,
    try_decrypt_url_safe, decrypt_url_safe, GitHubUserResponse, UserIr,
};
use chartered::web::auth::password::{
    authenticate, check_login, check_registration, hash_password, registration_outcome,
    validate_username, verdict_answer, LoginError, LoginRequest, RegisterError, RegisterRequest,
};
use chartered::web::config::deserialize_encryption_key;
use chartered::web::endpoints::cargo_api::publish::{
    checksum, parse, publish_target, validate_crate_name, Error as PublishError,
    MetadataCrateDependency, PublishTarget,
};
use chartered::web::middleware::ip::AddIp;
use chartered::web::middleware::logging::replace_sensitive_path;
use chartered::web::middleware::rate_limit::RateLimit;
use chartered::web::models::{get_crate_with_permissions, CrateFetchError};

fn user(password: Option<String>) -> User {
    User {
        id: 3,
        uuid: SqlUuid(Uuid(3)),
        username: "sam".to_string(),
        password,
        name: None,
        nick: None,
        email: None,
        external_profile_url: None,
        picture_url: None,
    }
}

#[test]
fn usernames() {
    assert!(validate_username("sam"));
    assert!(!validate_username(""));
    assert!(!validate_username("github:123"));
    assert!(!validate_username(&oidc_username("github", "123")));
    assert_eq!(oidc_username("github", "123"), "github:123");
}

#[test]
fn registration_checks() {
    let req = RegisterRequest {
        username: "sam".to_string(),
        password: "12345".to_string(),
    };
    assert_eq!(check_registration(false, &req), Err(RegisterError::PasswordAuthDisabled));
    assert_eq!(check_registration(true, &req), Err(RegisterError::PasswordRequirementNotMet));
    let req = RegisterRequest {
        username: "a:b".to_string(),
        password: "123456".to_string(),
    };
    assert_eq!(check_registration(true, &req), Err(RegisterError::InvalidUsername));
    let req = RegisterRequest {
        username: "sam".to_string(),
        password: "123456".to_string(),
    };
    assert_eq!(check_registration(true, &req), Ok(()));
    let req = RegisterRequest {
        username: "alice".to_string(),
        password: "ééé".to_string(),
    };
    assert_eq!(check_registration(true, &req), Err(RegisterError::PasswordRequirementNotMet));
    let req = RegisterRequest {
        username: "alice".to_string(),
        password: "éééééé".to_string(),
    };
    assert_eq!(check_registration(true, &req), Ok(()));
    assert!(matches!(
        registration_outcome(Err(DbError::UsernameTaken)),
        Err(RegisterError::UsernameTaken)
    ));
    assert!(registration_outcome(Ok(())).ok().unwrap().success);
    assert_eq!(RegisterError::UsernameTaken.status_code(), 400);
    assert_eq!(RegisterError::PasswordAuthDisabled.status_code(), 403);
    assert_eq!(RegisterError::Bcrypt.status_code(), 500);
}

#[test]
fn login_checks() {
    let req = LoginRequest {
        username: "sam".to_string(),
        password: "".to_string(),
    };
    assert_eq!(check_login(true, &req), Err(LoginError::InvalidPassword));
    assert_eq!(check_login(false, &req), Err(LoginError::PasswordAuthDisabled));
    assert_eq!(authenticate("pw", None), Err(LoginError::UnknownUser));
    assert_eq!(authenticate("pw", Some(user(None))), Err(LoginError::UnknownUser));
    assert_eq!(
        authenticate("pw", Some(user(Some("not a hash".to_string())))),
        Err(LoginError::Bcrypt)
    );
    assert_eq!(LoginError::UnknownUser.status_code(), 403);
    assert_eq!(LoginError::UnknownUser.message(), LoginError::InvalidPassword.message());
}

#[test]
fn registered_password_logs_in() {
    let hash = hash_password("correct horse").unwrap();
    assert_ne!(hash, "correct horse");
    let u = user(Some(hash));
    assert_eq!(authenticate("correct horse", Some(u.clone())), Ok(u.clone()));
    assert_eq!(authenticate("wrong horse", Some(u)), Err(LoginError::InvalidPassword));
}

#[test]
fn sealed_state_opens() {
    let key = deserialize_encryption_key("0123456789abcdef0123456789abcdef").unwrap();
    let sealed = encrypt_url_safe(b"{\"provider\":\"github\"}", &key).unwrap();
    assert_eq!(
        decrypt_url_safe(&sealed, &key),
        Ok(b"{\"provider\":\"github\"}".to_vec())
    );
    let other = deserialize_encryption_key("fedcba9876543210fedcba9876543210").unwrap();
    assert!(decrypt_url_safe(&sealed, &other).is_err());
    assert!(try_decrypt_url_safe("AAAA", &key).is_none());
    assert!(matches!(
        try_decrypt_url_safe("not base64!", &key),
        Some(Err(chartered::web::auth::openid::Error::Base64))
    ));
    assert!(deserialize_encryption_key("short").is_err());
    assert!(encrypt_url_safe(b"", &key).is_ok());
}

#[test]
fn provider_users() {
    assert_eq!(decimal_string(0), "0");
    assert_eq!(decimal_string(18446744073709551615), "18446744073709551615");
    let ir = UserIr::from_github(GitHubUserResponse {
        id: 42,
        login: "octo".to_string(),
        avatar_url: "https://a/x.png".to_string(),
        html_url: None,
        name: None,
        email: "o@x".to_string(),
    });
    assert_eq!(ir.id, "42");
    assert_eq!(ir.name.as_deref(), Some("octo"));
    assert_eq!(ir.nick.as_deref(), Some("octo"));
    assert_eq!(nonce_text(&[0u8; 16]), "AAAAAAAAAAAAAAAAAAAAAA");
}

#[test]
fn publish_body() {
    let mut body = Vec::new();
    body.extend_from_slice(&3u32.to_le_bytes());
    body.extend_from_slice(b"{} ");
    body.extend_from_slice(&2u32.to_le_bytes());
    body.extend_from_slice(b"CR");
    body.extend_from_slice(b"trailing");
    assert_eq!(
        parse(&body),
        Some((b"trailing".to_vec(), (b"{} ".to_vec(), b"CR".to_vec())))
    );
    assert_eq!(
        parse(&[2, 0, 0, 0, b'{', b'}', 1, 0, 0, 0, b'x']),
        Some((vec![], (b"{}".to_vec(), b"x".to_vec())))
    );
    assert_eq!(parse(&body[..8]), None);
    assert_eq!(parse(&[1, 0]), None);
}

#[test]
fn crate_names() {
    assert!(validate_crate_name("serde_json"));
    assert!(validate_crate_name("a-b"));
    assert!(!validate_crate_name(""));
    assert!(!validate_crate_name("1abc"));
    assert!(!validate_crate_name("abc!"));
    assert!(!validate_crate_name("ébc"));
    assert!(validate_crate_name(&"a".repeat(64)));
    assert!(!validate_crate_name(&"a".repeat(65)));
}

#[test]
fn publish_decisions() {
    assert!(matches!(publish_target(Err(DbError::MissingCrate)), Ok(PublishTarget::Create)));
    assert!(matches!(
        publish_target(Err(DbError::Query)),
        Err(PublishError::Database(DbError::Query))
    ));
    assert_eq!(PublishError::InvalidCrateName.status_code(), 400);
    assert_eq!(
        checksum(b"abc"),
        "ba7816bf8f01cfea414140de5dae2223b00361a396177a9cb410ff61f20015ad"
    );
    let dep: chartered::types::CrateDependency = MetadataCrateDependency {
        name: "serde_renamed".to_string(),
        version_req: "^1".to_string(),
        features: vec![],
        optional: false,
        default_features: true,
        target: None,
        kind: "normal".to_string(),
        registry: None,
        explicit_name_in_toml: Some("serde".to_string()),
    }
    .into();
    assert_eq!(dep.name, "serde");
    assert_eq!(dep.package.as_deref(), Some("serde_renamed"));
}

#[test]
fn crate_permissions() {
    let c = chartered::db::crates::Crate {
        id: 1,
        name: "c".to_string(),
        organisation_id: 1,
        readme: None,
        description: None,
        repository: None,
        homepage: None,
        documentation: None,
    };
    assert_eq!(
        get_crate_with_permissions(None, UserPermission::all(), &vec![]),
        Err(CrateFetchError::NotFound)
    );
    let required = vec![UserPermission::visible(), UserPermission::yank_version()];
    assert_eq!(
        get_crate_with_permissions(Some(c.clone()), UserPermission::visible(), &required),
        Err(CrateFetchError::MissingPermission(UserPermission::yank_version()))
    );
    assert_eq!(
        get_crate_with_permissions(Some(c.clone()), UserPermission::all(), &required),
        Ok(c)
    );
    let missing = CrateFetchError::MissingPermission(UserPermission::yank_version());
    assert_eq!(missing.status_code(), 403);
    assert_eq!(
        missing.message(),
        "You don't have the YANK_VERSION permission for this crate"
    );
    let hidden = CrateFetchError::MissingPermission(UserPermission::visible());
    assert_eq!(hidden.status_code(), 404);
    assert_eq!(hidden.message(), "The requested crate does not exist");
}

#[test]
fn middleware_decisions() {
    assert_eq!(
        replace_sensitive_path("/a/secret-key/web/v1/users"),
        "/a/[snip]/web/v1/users"
    );
    assert_eq!(replace_sensitive_path("/a/no-slash"), "/a/no-slash");
    assert_eq!(replace_sensitive_path("/b/x/y"), "/b/x/y");
    let ip = AddIp::new(Some("X-Real-IP".to_string())).layer(());
    assert_eq!(ip.client_ip(Some(1), Some(2)), Some(1));
    assert_eq!(ip.client_ip(None, Some(2)), Some(2));
    let plain = AddIp::new(None).layer(());
    assert_eq!(plain.client_ip(Some(1), Some(2)), Some(2));
    let mut limit = RateLimit::new();
    assert_eq!(limit.with_cost(5).cost, 5);
    assert!(limit.count_request());
    assert!(!limit.count_request());
}

#[test]
fn download_decisions() {
    assert_eq!(version_file(None), Err(DownloadError::NoVersion));
    let version = |object: &str| CrateVersion {
        id: 1,
        crate_id: 1,
        version: "1.0.0".to_string(),
        filesystem_object: object.to_string(),
        size: 1,
        yanked: false,
        checksum: String::new(),
        dependencies: CrateDependencies(vec![]),
        features: chartered::types::CrateFeatures(vec![]),
        links: None,
        user_id: 1,
        created_at: 0,
    };
    assert!(version_file(Some(version("local:00000000-0000-0000-0000-000000000001"))).is_ok());
    assert_eq!(
        version_file(Some(version("bogus"))),
        Err(DownloadError::File(chartered::fs::Error::UnknownFileSystemKind))
    );
    assert_eq!(DownloadError::NoVersion.status_code(), 404);
    assert!(matches!(
        ResponseOrRedirect::from_pointer(FilePointer::Redirect("https://x".to_string())),
        ResponseOrRedirect::Redirect(u) if u == "https://x"
    ));
}

#[test]
fn login_verdicts() {
    let u = user(Some("hash".to_string()));
    assert_eq!(verdict_answer(u.clone(), Some(true)), Ok(u.clone()));
    assert_eq!(
        verdict_answer(u.clone(), Some(false)),
        Err(LoginError::InvalidPassword)
    );
    assert_eq!(verdict_answer(u, None), Err(LoginError::Bcrypt));
}

#[test]
fn forged_state_is_refused() {
    let key = deserialize_encryption_key("0123456789abcdef0123456789abcdef").unwrap();
    assert_eq!(
        open_decoded(vec![0u8; 40], &key),
        Err(chartered::web::auth::openid::Error::Cipher)
    );
    assert_eq!(
        open_decoded(vec![7u8; 12], &key),
        Err(chartered::web::auth::openid::Error::Cipher)
    );
    let sealed = encrypt_url_safe(b"state", &key).unwrap();
    let mut tampered = sealed.clone().into_bytes();
    tampered[0] = if tampered[0] == b'A' { b'B' } else { b'A' };
    let tampered = String::from_utf8(tampered).unwrap();
    assert!(matches!(
        try_decrypt_url_safe(&tampered, &key),
        Some(Err(_))
    ));
}
