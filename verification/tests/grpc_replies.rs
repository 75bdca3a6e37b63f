use backend::grpc::config::{
    contains_wildcard, cors_policy, jwt_secret_is_valid, origin_matches_patterns, validate_config, Caches, Config,
    CorsOrigins, CorsPolicy, Db, Jwt, Limits, Rabbitmq, Redis, Storage,
};
use backend::grpc::schema::{
    flatten_or_invalid_argument, flatten_or_not_found, message_with, Code, ServiceErrorExt, ServiceResultExt, Status,
};
use backend::grpc::v1::dto::{
    encrypted_vault_from_wire, encrypted_vault_to_wire, file_public_id_from_wire, file_public_id_to_wire,
    folder_public_id_from_wire, folder_public_id_to_wire, prost_duration_to_std_duration, ConvertDurationError,
    EncryptedVault, FileId, FolderId, ProtoDuration,
};
use backend::grpc::v1::files::{
    chunk_of, file_deletion_reply, initial_request, listed_folder, upload_error_status, upload_reply,
    UploadFileError, UploadFirstMessage,
};
use backend::grpc::v1::folder::{
    authorize, deletion_reply, existing_folder, limits_reply, rename_reply, requested_lifetime,
};
use backend::grpc::v1::share::{
    initiate_error_status, invalid_public_key, invalid_session_id, join_error_status, send_key_error_status,
    InitiateSessionError, JoinSessionError, SendKeyError,
};
use backend::models::encrypted_vault;
use backend::auth::service::jwt::SignedDuration;
use backend::grpc::v1::dto::{
    datetime_to_wire, encrypted_blobs_from_wire, file_view, folder_to_wire, from_str_or_invalid_argument,
    prost_duration_to_datetime_duration, update_to_wire, FolderUpdateKind, Update, WireEncryptedBlobs,
};
use backend::models::time::UtcTimestamp;
use backend::models::{encrypted_blobs, files, folders};
use backend::models::time::Duration;

fn parts(s: &Status) -> (Code, &str) {
    (s.code, s.message.as_str())
}

fn err_parts<T>(r: Result<T, Status>) -> (Code, String) {
    match r {
        Ok(_) => panic!("expected an error"),
        Err(s) => (s.code, s.message),
    }
}

#[test]
fn messages_join_base_and_detail() {
    assert_eq!(message_with("not found", Some("folder")), "not found: folder");
    assert_eq!(message_with("not found", None), "not found");
}

#[test]
fn option_and_result_to_status() {
    assert_eq!(Some(3).ok_or_not_found("x").ok(), Some(3));
    assert_eq!(err_parts(None::<u8>.ok_or_not_found("x")), (Code::NotFound, "not found: x".to_string()));
    assert_eq!(err_parts(None::<u8>.ok_or_invalid_argument(None::<&str>)), (Code::InvalidArgument, "invalid argument".to_string()));
    let failed: Result<u8, &str> = Err("boom");
    assert_eq!(err_parts(failed.ok_or_invalid_argument(String::from("bad id"))), (Code::InvalidArgument, "invalid argument: bad id".to_string()));
    let failed: Result<u8, &str> = Err("boom");
    assert_eq!(err_parts(failed.ok_or_internal()), (Code::Internal, "server error".to_string()));
    let fine: Result<u8, &str> = Ok(4);
    assert_eq!(fine.ok_or_internal().ok(), Some(4));
}

#[test]
fn flattening_nested_lookups() {
    let found: Result<Option<u8>, ()> = Ok(Some(1));
    assert_eq!(flatten_or_not_found(found, "gone").ok(), Some(1));
    let missing: Result<Option<u8>, ()> = Ok(None);
    assert_eq!(err_parts(flatten_or_not_found(missing, "gone")), (Code::NotFound, "not found: gone".to_string()));
    let failed: Result<Option<u8>, ()> = Err(());
    assert_eq!(err_parts(flatten_or_invalid_argument(failed, "bad")), (Code::InvalidArgument, "invalid argument: bad".to_string()));
}

#[test]
fn cors_star_mirrors_every_origin() {
    assert!(matches!(cors_policy(&CorsOrigins::Single("*".to_string())), CorsPolicy::MirrorRequest));
}

#[test]
fn cors_wildcards_make_patterns() {
    let value = CorsOrigins::List(vec!["https://a.example".to_string(), "https://*.example".to_string()]);
    match cors_policy(&value) {
        CorsPolicy::Patterns(p) => {
            assert_eq!(p, vec!["https://a.example".to_string(), "https://*.example".to_string()]);
            assert!(origin_matches_patterns(&p, "https://b.example"));
            assert!(origin_matches_patterns(&p, "https://a.example"));
            assert!(!origin_matches_patterns(&p, "http://b.example"));
            assert!(!origin_matches_patterns(&p, "https://B.EXAMPLE.com"));
        }
        _ => panic!("expected patterns"),
    }
    assert!(origin_matches_patterns(&vec!["h?st".to_string()], "host"));
    assert!(!origin_matches_patterns(&vec!["h?st".to_string()], "hst"));
    assert!(origin_matches_patterns(&vec!["*".to_string()], ""));
}

#[test]
fn cors_exact_origins_make_a_list() {
    match cors_policy(&CorsOrigins::Single("https://a.example".to_string())) {
        CorsPolicy::List(l) => assert_eq!(l, vec!["https://a.example".to_string()]),
        _ => panic!("expected a list"),
    }
    assert!(contains_wildcard("a?b"));
    assert!(!contains_wildcard("abc"));
}

fn config_with_secret(secret: &str) -> Config {
    Config {
        cors: CorsOrigins::Single("*".to_string()),
        jwt: Jwt { expires: Duration::new(60, 0), secret: secret.to_string() },
        caches: Caches { folders: Duration::new(1, 0), files: Duration::new(1, 0) },
        redis: Redis { url: "redis://localhost".to_string() },
        rabbitmq: Rabbitmq { url: None, exchange: "updates".to_string() },
        limits: Limits { max_filesize: 100, max_files_per_folder: 5 },
        storage: Storage {
            access_key: "a".to_string(),
            secret_key: "b".to_string(),
            bucket: "c".to_string(),
            region: "d".to_string(),
            endpoint_url: None,
            force_path_style: None,
        },
        db: Db { postgres_url: "postgres://localhost".to_string() },
    }
}

#[test]
fn jwt_secret_needs_thirty_two_bytes() {
    assert!(!jwt_secret_is_valid(&config_with_secret("0123456789012345678901234567890")));
    let ok = config_with_secret("01234567890123456789012345678901");
    assert!(jwt_secret_is_valid(&ok));
    assert!(jwt_secret_is_valid(&config_with_secret("ééééééééééééééää")));
    let kept = validate_config(ok);
    assert_eq!(kept.jwt.secret, "01234567890123456789012345678901");
    assert_eq!(limits_reply(&kept.limits).max_file_size, 100);
    assert_eq!(limits_reply(&kept.limits).max_files_per_folder, 5);
}

#[test]
fn wire_durations() {
    let d = prost_duration_to_std_duration(ProtoDuration { seconds: 5, nanos: 7 }).unwrap();
    assert_eq!((d.secs, d.nanos), (5, 7));
    assert_eq!(prost_duration_to_std_duration(ProtoDuration { seconds: -1, nanos: 0 }).err(), Some(ConvertDurationError::Negative));
    assert_eq!(prost_duration_to_std_duration(ProtoDuration { seconds: 0, nanos: -1 }).err(), Some(ConvertDurationError::Negative));
    assert!(requested_lifetime(None).unwrap().is_none());
    let l = requested_lifetime(Some(ProtoDuration { seconds: 3600, nanos: 0 })).unwrap().unwrap();
    assert_eq!(l.secs, 3600);
    assert_eq!(
        err_parts(requested_lifetime(Some(ProtoDuration { seconds: -5, nanos: 0 }))),
        (Code::InvalidArgument, "invalid argument: invalid expiration".to_string())
    );
}

#[test]
fn wire_ids() {
    let id = folder_public_id_from_wire(FolderId { value: "abcd1234".to_string() }).unwrap();
    assert_eq!(folder_public_id_to_wire(&id).value, "abcd1234");
    assert_eq!(err_parts(folder_public_id_from_wire(FolderId { value: "abcd12345".to_string() })), (Code::InvalidArgument, "invalid argument: invalid id".to_string()));
    let id = file_public_id_from_wire(FileId { value: "0123456789abcdef".to_string() }).unwrap();
    assert_eq!(file_public_id_to_wire(&id).value, "0123456789abcdef");
    assert!(file_public_id_from_wire(FileId { value: "ü".to_string() }).is_err());
}

fn wire_vault(iv: &str, tag: &str, algo: &str, version: u32) -> EncryptedVault {
    EncryptedVault { iv: iv.to_string(), tag: tag.to_string(), version, algo: algo.to_string() }
}

const IV: &str = "AAECAwQFBgcICQoL";
const TAG: &str = "AAECAwQFBgcICQoLDA0ODxAR";

#[test]
fn wire_vaults_round_trip() {
    let m = encrypted_vault_from_wire(encrypted_vault::Id(4), wire_vault(IV, TAG, "Aes256Gcm", 65535)).unwrap();
    assert_eq!(m.id, encrypted_vault::Id(4));
    assert_eq!(m.ver, encrypted_vault::Version(-1));
    let back = encrypted_vault_to_wire(&m);
    assert_eq!((back.iv.as_str(), back.tag.as_str(), back.algo.as_str()), (IV, TAG, "Aes256Gcm"));
    assert_eq!(back.version, u32::MAX);
    let again = encrypted_vault_from_wire(encrypted_vault::Id(4), back).unwrap();
    assert_eq!(again.ver, m.ver);
}

#[test]
fn wire_vaults_refused() {
    assert_eq!(err_parts(encrypted_vault_from_wire(encrypted_vault::Id(1), wire_vault("short", TAG, "Aes256Gcm", 1))), (Code::InvalidArgument, "invalid iv".to_string()));
    assert_eq!(err_parts(encrypted_vault_from_wire(encrypted_vault::Id(1), wire_vault(IV, "short", "Aes256Gcm", 1))), (Code::InvalidArgument, "invalid iv".to_string()));
    assert_eq!(err_parts(encrypted_vault_from_wire(encrypted_vault::Id(1), wire_vault(IV, TAG, "Rot13", 1))), (Code::InvalidArgument, "unsupported algo".to_string()));
}

#[test]
fn folder_replies() {
    assert!(authorize::<()>(Ok(true)).is_ok());
    assert_eq!(err_parts(authorize::<()>(Ok(false))), (Code::Unauthenticated, "invalid token".to_string()));
    assert_eq!(err_parts(authorize(Err("db down"))), (Code::Internal, "server error".to_string()));
    assert_eq!(existing_folder::<u8, ()>(Ok(Some(9))).ok(), Some(9));
    assert_eq!(err_parts(existing_folder::<u8, ()>(Ok(None))), (Code::NotFound, "not found: folder not found".to_string()));
    assert!(deletion_reply::<()>(Ok(true)).is_ok());
    assert_eq!(err_parts(deletion_reply::<()>(Ok(false))), (Code::NotFound, "folder not found".to_string()));
    assert!(rename_reply::<u8, ()>(Ok(Some(1))).is_ok());
    assert_eq!(err_parts(rename_reply::<u8, ()>(Ok(None))), (Code::NotFound, "not found: folder not found".to_string()));
    assert_eq!(err_parts(rename_reply::<u8, &str>(Err("x"))), (Code::Internal, "server error".to_string()));
}

#[test]
fn upload_replies() {
    let s = upload_error_status::<()>(UploadFileError::FileTooLarge);
    assert_eq!(parts(&s), (Code::InvalidArgument, "file too large"));
    assert_eq!(parts(&upload_error_status::<()>(UploadFileError::FolderNotFound)), (Code::NotFound, "folder not found"));
    assert_eq!(parts(&upload_error_status::<()>(UploadFileError::NoPermissions)), (Code::Unauthenticated, "no permissions"));
    assert_eq!(parts(&upload_error_status::<()>(UploadFileError::FolderIsFull)), (Code::Aborted, "folder is full"));
    assert_eq!(parts(&upload_error_status(UploadFileError::Stream("cut"))), (Code::Cancelled, "stream cancelled"));
    let ok: Result<Result<u8, UploadFileError<()>>, ()> = Ok(Ok(1));
    assert_eq!(upload_reply(ok).ok(), Some(1));
    let failed: Result<Result<u8, UploadFileError<()>>, ()> = Err(());
    assert_eq!(err_parts(upload_reply(failed)), (Code::Internal, "server error".to_string()));
}

#[test]
fn upload_stream_messages() {
    let first: Option<Result<UploadFirstMessage<u8>, ()>> = Some(Ok(UploadFirstMessage::Initiate(3)));
    assert_eq!(initial_request(first).ok(), Some(3));
    let chunk: Option<Result<UploadFirstMessage<u8>, ()>> = Some(Ok(UploadFirstMessage::Chunk));
    assert_eq!(err_parts(initial_request(chunk)), (Code::InvalidArgument, "invalid initial request".to_string()));
    let none: Option<Result<UploadFirstMessage<u8>, ()>> = None;
    assert!(initial_request(none).is_err());
    assert_eq!(chunk_of::<()>(Ok(Some(vec![1, 2]))).ok(), Some(vec![1, 2]));
    assert_eq!(err_parts(chunk_of::<()>(Ok(None))), (Code::Aborted, "aborted".to_string()));
    assert_eq!(err_parts(listed_folder::<u8, ()>(Ok(None))), (Code::NotFound, "not found".to_string()));
    assert_eq!(err_parts(file_deletion_reply::<u8, ()>(Ok(None))), (Code::NotFound, "not found: file not found".to_string()));
    assert!(file_deletion_reply::<u8, ()>(Ok(Some(2))).is_ok());
}

#[test]
fn share_replies() {
    assert_eq!(parts(&initiate_error_status(InitiateSessionError::FolderNotFound)), (Code::NotFound, "folder not found"));
    assert_eq!(parts(&join_error_status(JoinSessionError::InvalidCode)), (Code::InvalidArgument, "invalid code"));
    assert_eq!(parts(&join_error_status(JoinSessionError::SessionNotFound)), (Code::NotFound, "session not found"));
    assert_eq!(parts(&send_key_error_status(SendKeyError::SessionNotFound)), (Code::NotFound, "session not found"));
    assert_eq!(parts(&send_key_error_status(SendKeyError::Unauthorized)), (Code::PermissionDenied, "unauthorized"));
    assert_eq!(parts(&invalid_public_key()), (Code::InvalidArgument, "invalid public key"));
    assert_eq!(parts(&invalid_session_id()), (Code::InvalidArgument, "invalid session id"));
}

#[test]
fn signed_wire_durations() {
    assert_eq!(prost_duration_to_datetime_duration(ProtoDuration { seconds: 5, nanos: -1 }), SignedDuration { secs: 4, nanos: 999_999_999 });
    assert_eq!(prost_duration_to_datetime_duration(ProtoDuration { seconds: -1, nanos: 2_000_000_001 }), SignedDuration { secs: 1, nanos: 1 });
    assert_eq!(prost_duration_to_datetime_duration(ProtoDuration { seconds: 0, nanos: i32::MIN }), SignedDuration { secs: -3, nanos: 852_516_352 });
}

#[test]
fn invalid_values() {
    let parsed: Result<u8, std::num::ParseIntError> = "x".parse::<u8>();
    assert_eq!(err_parts(from_str_or_invalid_argument(parsed, Some("size"))), (Code::InvalidArgument, "invalid argument: invalid value: size".to_string()));
    let parsed: Result<u8, std::num::ParseIntError> = "x".parse::<u8>();
    assert_eq!(err_parts(from_str_or_invalid_argument(parsed, None)), (Code::InvalidArgument, "invalid argument: invalid value".to_string()));
    assert_eq!(from_str_or_invalid_argument("7".parse::<u8>(), None).ok(), Some(7));
}

#[test]
fn calendar_dates_on_the_wire() {
    let d = datetime_to_wire(UtcTimestamp::new(0, 5));
    assert_eq!((d.year, d.month, d.day, d.hours, d.minutes, d.seconds, d.nanos), (1970, 1, 1, 0, 0, 0, 5));
    let d = datetime_to_wire(UtcTimestamp::new(951_782_400 + 3661, 0));
    assert_eq!((d.year, d.month, d.day, d.hours, d.minutes, d.seconds), (2000, 2, 29, 1, 1, 1));
    let d = datetime_to_wire(UtcTimestamp::new(-1, 0));
    assert_eq!((d.year, d.month, d.day, d.hours, d.minutes, d.seconds), (1969, 12, 31, 23, 59, 59));
    assert_eq!((d.utc_offset.seconds, d.utc_offset.nanos), (0, 0));
}

fn vault(id: i32) -> encrypted_vault::Model {
    encrypted_vault_from_wire(encrypted_vault::Id(id), wire_vault(IV, TAG, "Aes256Gcm", 2)).unwrap()
}

#[test]
fn folders_and_files_on_the_wire() {
    let folder = folders::Model {
        id: folders::Id(1),
        public_id: folders::PublicId::parse("fid").unwrap(),
        encrypted_name: folders::FolderName(encrypted_blobs::Model::new(vault(1), vec![9, 8])),
        expired_at: Some(UtcTimestamp::new(86_400, 0)),
        created_at: UtcTimestamp::new(0, 0),
    };
    let w = folder_to_wire(folder);
    assert_eq!(w.id.value, "fid");
    assert_eq!(w.name.data, vec![9, 8]);
    assert_eq!(w.name.meta.version, 2);
    assert_eq!(w.created_at.year, 1970);
    assert_eq!(w.expired_at.map(|e| e.day), Some(2));
    let file = files::Model {
        id: files::Id(1),
        public_id: files::PublicId::parse("file1").unwrap(),
        folder_id: folders::Id(1),
        data_meta: vault(2),
        meta: encrypted_blobs::Model::new(vault(3), vec![1]),
        storage_path: files::StoragePath(1),
        file_size: 77,
        created_at: UtcTimestamp::new(0, 0),
    };
    let v = file_view(file);
    assert_eq!((v.id.value.as_str(), v.size, v.metadata.data.clone()), ("file1", 77, vec![1]));
    let read = encrypted_blobs_from_wire(encrypted_vault::Id(5), WireEncryptedBlobs { meta: wire_vault(IV, TAG, "Aes256Gcm", 1), data: vec![4] }).unwrap();
    assert_eq!(read.data, vec![4]);
    assert_eq!(read.meta.id, encrypted_vault::Id(5));
    assert_eq!(err_parts(encrypted_blobs_from_wire(encrypted_vault::Id(5), WireEncryptedBlobs { meta: wire_vault(IV, TAG, "X", 1), data: vec![] })), (Code::InvalidArgument, "unsupported algo".to_string()));
}

#[test]
fn folder_updates_on_the_wire() {
    assert!(matches!(update_to_wire(FolderUpdateKind::FolderDeleted), Update::FolderDeleted));
    let renamed = update_to_wire(FolderUpdateKind::FolderRenamed {
        new_folder_name: folders::FolderName(encrypted_blobs::Model::new(vault(1), vec![3])),
    });
    assert!(matches!(renamed, Update::FolderNameChanged(ref n) if n.data == vec![3]));
    let file = files::Model {
        id: files::Id(1),
        public_id: files::PublicId::parse("gone").unwrap(),
        folder_id: folders::Id(1),
        data_meta: vault(2),
        meta: encrypted_blobs::Model::new(vault(3), vec![]),
        storage_path: files::StoragePath(1),
        file_size: 1,
        created_at: UtcTimestamp::new(0, 0),
    };
    assert!(matches!(update_to_wire(FolderUpdateKind::FileDeleted { file }), Update::FileDeleted(ref id) if id.value == "gone"));
}
