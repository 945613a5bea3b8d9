use chartered::fs::{Error, FileReference, FileSystem, FileSystemKind, Local, ParsedUrl};
use chartered::uuid::Uuid;

#[test]
fn parse_filesystem() {
    assert!(matches!(
        FileSystem::from_str("file:///tmp/chartered"),
        Ok(FileSystem::Local(inner)) if std::str::from_utf8(&inner.path).unwrap() == "/tmp/chartered"
    ));
}

#[test]
fn parse_s3_filesystem() {
    match FileSystem::from_str("s3://10.0.64.101:9000/my-bucket/my-location") {
        Ok(FileSystem::S3(inner)) => {
            assert_eq!(inner.host, "10.0.64.101");
            assert_eq!(inner.bucket, "my-bucket");
            assert_eq!(inner.path, "my-location");
        }
        other => panic!("unexpected {:?}", other),
    }
    assert_eq!(FileSystem::from_str("not a url"), Err(Error::UriParse));
    assert_eq!(
        FileSystem::from_str("ftp://host/x"),
        Err(Error::UnknownFileSystemKind)
    );
}

#[test]
fn file_reference_round_trip() {
    let r = FileReference {
        file_system: FileSystemKind::Local,
        reference: Uuid(0x0123456789abcdef0123456789abcdef),
    };
    let text = r.to_string();
    assert_eq!(text, "local:01234567-89ab-cdef-0123-456789abcdef");
    assert_eq!(FileReference::from_str(&text), Ok(r));
    assert_eq!(
        FileReference::from_str("nope:01234567-89ab-cdef-0123-456789abcdef"),
        Err(Error::UnknownFileSystemKind)
    );
    let created = FileReference::create(FileSystemKind::S3);
    assert_eq!(FileReference::from_str(&created.to_string()), Ok(created));
}

#[test]
fn local_object_path() {
    let fs = Local {
        path: b"/tmp".to_vec(),
    };
    let r = FileReference {
        file_system: FileSystemKind::Local,
        reference: Uuid(1),
    };
    assert_eq!(
        fs.object_path(&r),
        b"/tmp/00000000-0000-0000-0000-000000000001".to_vec()
    );
    let root = Local { path: b"/".to_vec() };
    assert_eq!(
        root.object_path(&r),
        b"/00000000-0000-0000-0000-000000000001".to_vec()
    );
    let raw = Local { path: vec![b'/', 0xff] };
    assert_eq!(
        raw.object_path(&r),
        [&[b'/', 0xff, b'/'][..], b"00000000-0000-0000-0000-000000000001"].concat()
    );
}

#[test]
fn s3_content_md5() {
    assert_eq!(
        chartered::fs::S3::content_md5(b"abc"),
        "900150983cd24fb0d6963f7d28e17f72"
    );
}

fn parsed(scheme: &str, host: Option<&str>, segments: Option<&[&str]>, file: Option<&[u8]>) -> ParsedUrl {
    ParsedUrl {
        scheme: scheme.to_string(),
        host: host.map(str::to_string),
        path_segments: segments.map(|v| v.iter().map(|s| s.to_string()).collect()),
        file_path: file.map(<[u8]>::to_vec),
    }
}

#[test]
fn file_system_from_parsed_parts() {
    match FileSystem::from_parsed(parsed("s3", Some("h"), Some(&["b", "x", "y"]), None)) {
        Ok(FileSystem::S3(inner)) => {
            assert_eq!(inner.host, "h");
            assert_eq!(inner.bucket, "b");
            assert_eq!(inner.path, "x/y");
        }
        other => panic!("unexpected {:?}", other),
    }
    assert_eq!(
        FileSystem::from_parsed(parsed("s3", Some("h"), None, None)),
        Err(Error::MissingPath)
    );
    assert_eq!(
        FileSystem::from_parsed(parsed("s3", None, Some(&["b"]), None)),
        Err(Error::MissingHost)
    );
    assert_eq!(
        FileSystem::from_parsed(parsed("s3", Some("h"), Some(&[]), None)),
        Err(Error::MissingBucket)
    );
    assert_eq!(
        FileSystem::from_parsed(parsed("file", Some("remote"), Some(&["a"]), None)),
        Err(Error::MissingPath)
    );
    assert_eq!(
        FileSystem::from_parsed(parsed("file", None, Some(&["a"]), Some(b"/a"))),
        Ok(FileSystem::Local(Local { path: b"/a".to_vec() }))
    );
    assert_eq!(
        FileSystem::from_parsed(parsed("http", Some("h"), Some(&["a"]), Some(b"/a"))),
        Err(Error::UnknownFileSystemKind)
    );
}

#[test]
fn file_uri_with_percent_encoded_bytes() {
    assert_eq!(
        FileSystem::from_str("file:///tmp/a%FFb"),
        Ok(FileSystem::Local(Local { path: b"/tmp/a\xffb".to_vec() }))
    );
}

#[test]
fn file_uri_with_remote_host_has_no_local_path() {
    assert_eq!(
        FileSystem::from_str("file://remote.example/tmp"),
        Err(Error::MissingPath)
    );
}
