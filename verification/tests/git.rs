use chartered::git::codec::{DecodeError, Encoder, GitCodec, GitCommand};
use chartered::git::config::{log_level, CargoConfig, GitCommitter};
use chartered::git::repository::{GitRepository, RepoError};
use chartered::git::server::{
    trim_slashes, CommandKind, FrameAction, Handler, HandlerError, MISSING_ORGANISATION_MESSAGE,
};
use chartered::git::tree::{folder_boundaries_ok, Tree};
use chartered::git::PktLine;

fn write_str(buf: &mut Vec<u8>, s: &str) {
    buf.extend_from_slice(s.as_bytes());
}

#[test]
fn decode() {
    let mut codec = GitCodec::default();

    let mut bytes: Vec<u8> = Vec::new();

    write_str(&mut bytes, "0015agent=git/2.32.0");
    let res = codec.decode(&mut bytes).unwrap();
    assert_eq!(res, None);

    bytes.push(b'\n');
    let res = codec.decode(&mut bytes).unwrap();
    assert_eq!(res, None);

    write_str(&mut bytes, "0000");
    let res = codec.decode(&mut bytes).unwrap();
    assert_eq!(
        res,
        Some(GitCommand {
            command: b"agent=git/2.32.0\n".to_vec(),
            metadata: vec![],
        })
    );

    write_str(&mut bytes, "0000");
    let res = codec.decode(&mut bytes).unwrap();
    assert_eq!(
        res,
        Some(GitCommand {
            command: Vec::new(),
            metadata: vec![],
        })
    );

    write_str(&mut bytes, "0002");
    write_str(&mut bytes, "0005a");
    write_str(&mut bytes, "0001");
    write_str(&mut bytes, "0005b");
    write_str(&mut bytes, "0000");

    let res = codec.decode(&mut bytes).unwrap();
    assert_eq!(
        res,
        Some(GitCommand {
            command: b"a".to_vec(),
            metadata: vec![b"b".to_vec()],
        })
    );
}

#[test]
fn test_pkt_line() {
    let mut buffer: Vec<u8> = Vec::new();
    PktLine::Data(b"agent=git/2.32.0\n").encode_to(&mut buffer);
    assert_eq!(buffer.as_slice(), b"0015agent=git/2.32.0\n");
}

#[test]
fn test_cargo_config() {
    let base = url::Url::parse("https://127.0.0.1:1234").unwrap();
    let conf = CargoConfig::new(base.as_str(), "my-api-key", "my-organisation");
    assert_eq!(
        conf.dl,
        "https://127.0.0.1:1234/a/my-api-key/o/my-organisation/api/v1/crates"
    );
    assert_eq!(
        conf.api,
        "https://127.0.0.1:1234/a/my-api-key/o/my-organisation"
    );
}

#[test]
fn get_crate_folder() {
    let folder = chartered::git::tree::get_crate_folder("");
    let mut folder = folder.iter();
    assert_eq!(folder.next(), None);

    let folder = chartered::git::tree::get_crate_folder("a");
    let mut folder = folder.iter();
    assert_eq!(folder.next(), Some(&"1"));
    assert_eq!(folder.next(), None);

    let folder = chartered::git::tree::get_crate_folder("ab");
    let mut folder = folder.iter();
    assert_eq!(folder.next(), Some(&"2"));
    assert_eq!(folder.next(), None);

    let folder = chartered::git::tree::get_crate_folder("abc");
    let mut folder = folder.iter();
    assert_eq!(folder.next(), Some(&"3"));
    assert_eq!(folder.next(), None);

    let folder = chartered::git::tree::get_crate_folder("abcd");
    let mut folder = folder.iter();
    assert_eq!(folder.next(), Some(&"ab"));
    assert_eq!(folder.next(), Some(&"cd"));
}

#[test]
fn crate_folder_counts_bytes() {
    // "é" is two bytes long, so it goes in the folder for two-byte names.
    assert_eq!(chartered::git::tree::get_crate_folder("é").as_slice(), ["2"]);
    assert_eq!(chartered::git::tree::get_crate_folder("éé").as_slice(), ["é", "é"]);
}

#[test]
fn decode_rejects_bad_length() {
    let mut codec = GitCodec::new();
    let mut bytes = b"zzzzrest".to_vec();
    assert_eq!(codec.decode(&mut bytes), Err(DecodeError::InvalidLength));
    let mut bytes = b"0003".to_vec();
    assert_eq!(codec.decode(&mut bytes), Err(DecodeError::ProtocolAbuse));
    let mut bytes = vec![0xff, 0xfe, 0x30, 0x30];
    assert_eq!(codec.decode(&mut bytes), Err(DecodeError::InvalidUtf8));
}

#[test]
fn encoded_command_decodes_back() {
    let mut bytes = Vec::new();
    let mut encoder = Encoder;
    encoder.encode(PktLine::Data(b"command=fetch"), &mut bytes);
    encoder.encode(PktLine::Data(b"done"), &mut bytes);
    encoder.encode(PktLine::Flush, &mut bytes);
    bytes.extend_from_slice(b"00");
    let mut codec = GitCodec::new();
    let res = codec.decode(&mut bytes).unwrap();
    assert_eq!(
        res,
        Some(GitCommand {
            command: b"command=fetch".to_vec(),
            metadata: vec![b"done".to_vec()],
        })
    );
    assert_eq!(bytes, b"00".to_vec());
}

#[test]
fn pkt_line_markers_and_sidebands() {
    let mut buf = Vec::new();
    PktLine::Flush.encode_to(&mut buf);
    PktLine::Delimiter.encode_to(&mut buf);
    PktLine::ResponseEnd.encode_to(&mut buf);
    PktLine::SidebandMsg(b"hi").encode_to(&mut buf);
    PktLine::SidebandData(b"PACK").encode_to(&mut buf);
    let mut expected = b"000000010002".to_vec();
    expected.extend_from_slice(b"0007\x02hi");
    expected.extend_from_slice(b"0009\x01PACK");
    assert_eq!(buf, expected);
    let mut buf = Vec::new();
    PktLine::from_str("version 2\n").encode_to(&mut buf);
    assert_eq!(buf, b"000eversion 2\n".to_vec());
}

#[test]
fn committer_defaults_and_log_levels() {
    let c = GitCommitter::default();
    assert_eq!(c.name, "chartered");
    assert_eq!(c.email, "noreply@chart.rs");
    assert_eq!(c.message, "Update crates");
    assert_eq!(log_level(0), "info");
    assert_eq!(log_level(1), "debug");
    assert_eq!(log_level(2), "trace");
    assert_eq!(log_level(3), "info");
}

#[test]
fn exec_request_needs_protocol_v2() {
    let mut handler = Handler::new();
    assert_eq!(
        handler.exec_request(b"git-upload-pack '/my-org'"),
        Err(HandlerError::NotProtocolV2)
    );
    handler.env_request("GIT_PROTOCOL", "version=1");
    assert!(!handler.is_git_protocol_v2);
    handler.env_request("GIT_PROTOCOL", "version=2");
    assert!(handler.is_git_protocol_v2);
    assert_eq!(
        handler.exec_request(&[0xff, 0xfe]),
        Err(HandlerError::InvalidUtf8)
    );
    assert_eq!(
        handler.exec_request(b"git-receive-pack '/my-org'"),
        Err(HandlerError::NotUploadPack)
    );
    assert_eq!(
        handler.exec_request(b"git-upload-pack 'unbalanced"),
        Err(HandlerError::NotUploadPack)
    );
}

#[test]
fn exec_request_reads_organisation_and_advertises() {
    let mut handler = Handler::new();
    handler.env_request("GIT_PROTOCOL", "version=2");
    assert_eq!(handler.exec_request(b"git-upload-pack '//my-org/'"), Ok(true));
    assert_eq!(handler.organisation.as_deref(), Some("my-org"));
    let out = handler.take_output();
    let text = String::from_utf8(out).unwrap();
    assert_eq!(
        text,
        "000eversion 2\n001eagent=chartered-git/0.1.0\n0013ls-refs=unborn\n\
         0020fetch=shallow wait-for-done\n0012server-option\n0010object-info\n0000"
    );
    assert!(handler.output_bytes.is_empty());

    let mut handler = Handler::new();
    handler.env_request("GIT_PROTOCOL", "version=2");
    assert_eq!(handler.exec_request(b"git-upload-pack '/'"), Ok(false));
    assert_eq!(handler.organisation, None);
    assert!(MISSING_ORGANISATION_MESSAGE.starts_with("\r\nNo organisation was given"));
    assert!(MISSING_ORGANISATION_MESSAGE.contains("\n    [registries]\n    chartered = "));
}

#[test]
fn trims_slashes() {
    assert_eq!(trim_slashes("//a/b//"), "a/b");
    assert_eq!(trim_slashes("///"), "");
    assert_eq!(trim_slashes("org"), "org");
}

#[test]
fn frames_need_authentication_and_organisation() {
    let mut handler = Handler::new();
    handler.input_bytes.extend_from_slice(b"0011command=fetch0000");
    match handler.next_frame() {
        Err(HandlerError::NotAuthenticated) => {}
        _ => panic!("expected NotAuthenticated"),
    }
    let mut handler = Handler::new();
    handler.input_bytes.extend_from_slice(b"0000");
    assert!(matches!(handler.next_frame(), Ok(FrameAction::Close)));
    let mut handler = Handler::new();
    handler.input_bytes.extend_from_slice(b"0011comm");
    assert!(matches!(handler.next_frame(), Ok(FrameAction::NeedMore)));
}

#[test]
fn fetch_answer() {
    let mut handler = Handler::new();
    handler.write_fetch_head(&vec![b"want abc".to_vec()]);
    handler.write_packfile(b"PACK");
    let out = handler.take_output();
    let mut expected = b"0014acknowledgments\n000aready\n0001000dpackfile\n".to_vec();
    expected.extend_from_slice(b"001b\x02Hello from chartered!\n");
    expected.extend_from_slice(b"0009\x01PACK0000");
    assert_eq!(out, expected);

    let mut handler = Handler::new();
    handler.write_fetch_head(&vec![b"done".to_vec()]);
    let out = handler.take_output();
    let mut expected = b"000dpackfile\n".to_vec();
    expected.extend_from_slice(b"001b\x02Hello from chartered!\n");
    assert_eq!(out, expected);
}

#[test]
fn fetch_in_two_parts() {
    let mut handler = Handler::new();
    let (head, body) = handler.fetch(&vec![b"done".to_vec()], b"PACK");
    let mut expected_head = b"000dpackfile\n".to_vec();
    expected_head.extend_from_slice(b"001b\x02Hello from chartered!\n");
    assert_eq!(head, expected_head);
    assert_eq!(body, b"0009\x01PACK0000".to_vec());
    assert!(handler.output_bytes.is_empty());
}

#[test]
fn command_kinds() {
    let mut handler = Handler::new();
    handler.organisation = Some("org".to_string());
    handler.accept(sample_user(), "key".to_string());
    handler
        .input_bytes
        .extend_from_slice(b"0013command=ls-refs00000011command=other0000");
    match handler.next_frame() {
        Ok(FrameAction::Command(CommandKind::LsRefs, metadata)) => assert!(metadata.is_empty()),
        _ => panic!("expected ls-refs"),
    }
    match handler.next_frame() {
        Ok(FrameAction::Command(CommandKind::Unknown(c), _)) => assert_eq!(c, b"command=other"),
        _ => panic!("expected an unknown command"),
    }
    handler.shell_request().unwrap();
    assert_eq!(
        String::from_utf8(handler.take_output()).unwrap(),
        "Hi there, alice! You've successfully authenticated, but chartered does not provide shell access.\r\n"
    );
}

fn sample_user() -> chartered::db::users::User {
    chartered::db::users::User {
        id: 1,
        uuid: chartered::uuid::SqlUuid(chartered::uuid::Uuid(7)),
        username: "alice".to_string(),
        password: None,
        name: None,
        nick: None,
        email: None,
        external_profile_url: None,
        picture_url: None,
    }
}

#[test]
fn repository_reads_back_what_was_written() {
    let mut repo = GitRepository::new();
    repo.insert(&[], "config.json", b"{}").unwrap();
    repo.insert(&["ab", "cd"], "abcd", b"one").unwrap();
    repo.insert(&["ab", "cd"], "abcde", b"two").unwrap();
    repo.insert(&["ab", "cd"], "abcd", b"three").unwrap();
    assert_eq!(repo.read(&["ab", "cd"], "abcd"), Some(b"three".to_vec()));
    assert_eq!(repo.read(&["ab", "cd"], "abcde"), Some(b"two".to_vec()));
    assert_eq!(repo.read(&[], "config.json"), Some(b"{}".to_vec()));
    assert_eq!(repo.read(&["ab"], "cd"), None);
    assert_eq!(
        repo.insert(&["config.json"], "x", b"no"),
        Err(RepoError::FileAsDirectory)
    );
    assert_eq!(repo.read(&["config.json"], "x"), None);
    // a file written over a directory replaces it with everything below it
    repo.insert(&["ab"], "cd", b"file").unwrap();
    assert_eq!(repo.read(&["ab", "cd"], "abcd"), None);
    assert_eq!(repo.read(&["ab"], "cd"), Some(b"file".to_vec()));
}

#[test]
fn tree_writes_every_crate_to_its_folder() {
    let mut tree = Tree::new();
    tree.insert("serde".to_string(), "line-s\n".to_string());
    tree.insert("ab".to_string(), "line-ab\n".to_string());
    tree.insert("a".to_string(), "line-a\n".to_string());
    tree.insert("serde".to_string(), "line-s2\n".to_string());
    assert_eq!(tree.len(), 3);
    assert_eq!(tree.get(0), ("a", "line-a\n"));
    assert_eq!(tree.get(1), ("ab", "line-ab\n"));
    assert_eq!(tree.get(2), ("serde", "line-s2\n"));
    let mut repo = GitRepository::new();
    repo.insert(&[], "config.json", b"{}").unwrap();
    tree.write_to_packfile(&mut repo).unwrap();
    assert_eq!(repo.read(&["1"], "a"), Some(b"line-a\n".to_vec()));
    assert_eq!(repo.read(&["2"], "ab"), Some(b"line-ab\n".to_vec()));
    assert_eq!(repo.read(&["se", "rd"], "serde"), Some(b"line-s2\n".to_vec()));
    assert_eq!(repo.read(&[], "config.json"), Some(b"{}".to_vec()));
}

#[test]
fn exec_with_split_words() {
    let mut handler = Handler::new();
    assert_eq!(
        handler.exec_with_words(Some(vec!["git-upload-pack".to_string(), "/org".to_string()])),
        Err(HandlerError::NotProtocolV2)
    );
    handler.env_request("GIT_PROTOCOL", "version=2");
    assert_eq!(handler.exec_with_words(None), Err(HandlerError::NotUploadPack));
    assert_eq!(handler.exec_with_words(Some(vec![])), Err(HandlerError::NotUploadPack));
    assert_eq!(
        handler.exec_with_words(Some(vec!["git-upload-pack".to_string()])),
        Ok(false)
    );
    assert_eq!(handler.organisation, None);
    assert_eq!(
        handler.exec_with_words(Some(vec!["git-upload-pack".to_string(), "/a/b/".to_string()])),
        Ok(true)
    );
    assert_eq!(handler.organisation.as_deref(), Some("a/b"));
}

#[test]
fn crate_folder_boundaries() {
    assert!(folder_boundaries_ok("abc"));
    assert!(folder_boundaries_ok("serde"));
    assert!(folder_boundaries_ok("ab\u{e9}c"));
    assert!(!folder_boundaries_ok("a\u{e9}cd"));
    assert!(!folder_boundaries_ok("abc\u{e9}"));
    assert!(folder_boundaries_ok("\u{e9}\u{e9}x"));
}
