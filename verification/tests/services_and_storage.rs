use backend::auth::service::jwt::{checked_add_signed, token_grants_folder, Error as JwtServiceError, JwtTokenService, SignedDuration};
use backend::download::service::basic::{contents_step, file_step, folder_step, Error as DownloadError};
use backend::files::service::basic::{
    upload_start, upload_step, Error as FilesError, UploadAction, UploadEvent, UploadState,
    aborted_upload, file_in_folder, file_to_delete, new_file_record, storage_purge, ChunkStep, UploadProgress,
};
use backend::files::storage::s3::{
    delete_batches, object_key, prepare_completion, sort_parts_by_number, upload_id_or_missing, RawCompletedPart,
    RawS3MultipartFileUpload, S3MultipartUploadHandle, UploadError,
};
use backend::folders::service::basic::{expiry_for, folder_deleted, folder_to_create, is_expired, lookup_outcome, Error as FoldersError};
use backend::folders::service::RenameFolderError;
use backend::id_generator::{IdGeneratorService, RandomIdGeneratorService};
use backend::models::encrypted_vault::{self, EncryptionAlgo, IV, Tag};
use backend::models::time::{Duration, UtcTimestamp, MAX_UTC_SECS};
use backend::models::{encrypted_blobs, files, folders};
use backend::service::error::ServiceError;
use backend::models::ActiveValue;
use backend::files::repository::db::{files_size_of, new_file_active_model};
use backend::folders::repository::db::{new_folder_active_model, rename_active_model, rename_result, UpdateOutcome};
use backend::files::storage::s3::{abort_on_drop, completion_outcome, get_file_result, GetObjectOutcome, S3FilesStorage};
use backend::files::service::basic::{completed_file_record, storage_to_delete, UploadFileData};

fn vault(id: i32) -> encrypted_vault::Model {
    encrypted_vault::Model {
        id: encrypted_vault::Id(id),
        iv: IV::parse("AAECAwQFBgcICQoL").unwrap(),
        tag: Tag::parse("AAECAwQFBgcICQoLDA0ODxAR").unwrap(),
        ver: encrypted_vault::Version(1),
        algo: EncryptionAlgo::Aes256Gcm,
    }
}

fn file(id: i32, folder: i64, path: u128) -> files::Model {
    files::Model {
        id: files::Id(id),
        public_id: files::PublicId::parse("f").unwrap(),
        folder_id: folders::Id(folder),
        data_meta: vault(1),
        meta: encrypted_blobs::Model::new(vault(2), vec![]),
        storage_path: files::StoragePath(path),
        file_size: 1,
        created_at: UtcTimestamp::new(0, 0),
    }
}

fn folder(id: i64, expired_at: Option<UtcTimestamp>) -> folders::Model {
    folders::Model {
        id: folders::Id(id),
        public_id: folders::PublicId::parse("abc").unwrap(),
        encrypted_name: folders::FolderName(encrypted_blobs::Model::new(vault(3), vec![7])),
        expired_at,
        created_at: UtcTimestamp::new(0, 0),
    }
}

#[test]
fn files_belong_to_their_folder() {
    assert_eq!(file_in_folder(Some(file(1, 5, 0)), folders::Id(5)).map(|f| f.id), Some(files::Id(1)));
    assert!(file_in_folder(Some(file(1, 5, 0)), folders::Id(6)).is_none());
    assert!(file_in_folder(None, folders::Id(6)).is_none());
    assert_eq!(file_to_delete(&Some(file(2, 5, 0)), folders::Id(5)), Some(files::Id(2)));
    assert_eq!(file_to_delete(&Some(file(2, 5, 0)), folders::Id(4)), None);
}

#[test]
fn purging_storage_of_deleted_files() {
    assert!(storage_purge(&vec![]).is_none());
    let paths = storage_purge(&vec![file(1, 5, 10), file(2, 5, 20)]).unwrap();
    assert_eq!(paths, vec![files::StoragePath(10), files::StoragePath(20)]);
}

#[test]
fn upload_progress_counts_chunks() {
    let mut p = UploadProgress::new();
    assert!(matches!(p.on_chunk::<()>(Some(Ok(vec![0; 10]))), ChunkStep::Upload(c) if c.len() == 10));
    assert!(matches!(p.on_chunk::<()>(Some(Ok(vec![0; 5]))), ChunkStep::Upload(_)));
    assert!(matches!(p.on_chunk(Some(Err("cut"))), ChunkStep::Abort("cut")));
    assert!(matches!(p.on_chunk::<()>(None), ChunkStep::Complete));
    assert_eq!(p.total_bytes_received, 15);
    assert_eq!(p.file_size(), 15);
    let record = new_file_record(files::PublicId::parse("newfile").unwrap(), folders::Id(3), vault(1), encrypted_blobs::Model::new(vault(2), vec![]), files::StoragePath(77), &p);
    assert_eq!(record.file_size, 15);
    assert_eq!(record.storage_path, files::StoragePath(77));
    assert_eq!(record.public_id.as_str(), "newfile");
    assert!(matches!(aborted_upload::<&str, ()>("stop"), ServiceError::Business("stop")));
}

#[test]
fn expired_folders_are_missing() {
    let now = UtcTimestamp::new(100, 0);
    assert!(!is_expired(None, now));
    assert!(is_expired(Some(UtcTimestamp::new(99, 999_999_999)), now));
    assert!(!is_expired(Some(UtcTimestamp::new(100, 0)), now));
    let out = lookup_outcome(Some(folder(4, Some(UtcTimestamp::new(50, 0)))), now);
    assert!(out.folder.is_none());
    assert_eq!(out.remove, Some(folders::Id(4)));
    let out = lookup_outcome(Some(folder(4, Some(UtcTimestamp::new(150, 0)))), now);
    assert_eq!(out.folder.map(|f| f.id), Some(folders::Id(4)));
    assert!(out.remove.is_none());
    let out = lookup_outcome(None, now);
    assert!(out.folder.is_none() && out.remove.is_none());
}

#[test]
fn new_folders_expire_after_their_lifetime() {
    let now = UtcTimestamp::new(1000, 500_000_000);
    assert!(expiry_for(now, None).is_none());
    let exp = expiry_for(now, Some(Duration::new(60, 600_000_000))).unwrap();
    assert_eq!((exp.secs, exp.nanos), (1061, 100_000_000));
    assert!(!is_expired(Some(exp), now));
    assert!(is_expired(Some(exp), UtcTimestamp::new(1061, 100_000_001)));
    let created = folder_to_create(
        folders::PublicId::parse("newone").unwrap(),
        folders::FolderName(encrypted_blobs::Model::new(vault(3), vec![1])),
        Some(Duration::new(1, 0)),
        now,
    );
    assert!(matches!(created.id, ActiveValue::NotSet));
    assert!(matches!(created.created_at, ActiveValue::SetValue(t) if t == now));
    assert!(matches!(created.expired_at, ActiveValue::SetValue(Some(t)) if t == UtcTimestamp::new(1001, 500_000_000)));
    assert!(matches!(&created.public_id, ActiveValue::SetValue(p) if p.as_str() == "newone"));
    let forever = folder_to_create(
        folders::PublicId::parse("keep").unwrap(),
        folders::FolderName(encrypted_blobs::Model::new(vault(3), vec![1])),
        None,
        now,
    );
    assert!(matches!(forever.expired_at, ActiveValue::NotSet));
}

#[test]
fn database_rows_and_answers() {
    let record = new_file_record(files::PublicId::parse("row").unwrap(), folders::Id(2), vault(1), encrypted_blobs::Model::new(vault(2), vec![5]), files::StoragePath(8), &UploadProgress::new());
    let row = new_file_active_model(record);
    assert!(matches!(row.id, ActiveValue::NotSet) && matches!(row.created_at, ActiveValue::NotSet));
    assert!(matches!(row.folder_id, ActiveValue::SetValue(folders::Id(2))));
    assert!(matches!(row.file_size, ActiveValue::SetValue(0)));
    assert_eq!(files_size_of(Some(Some(42))), Some(42));
    assert_eq!(files_size_of(Some(Some(-1))), None);
    assert_eq!(files_size_of(Some(None)), None);
    assert_eq!(files_size_of(None), None);
    let rename = rename_active_model(folders::Id(4), folders::FolderName(encrypted_blobs::Model::new(vault(3), vec![])));
    assert!(matches!(rename.id, ActiveValue::SetValue(folders::Id(4))));
    assert!(matches!(rename.public_id, ActiveValue::NotSet) && matches!(rename.expired_at, ActiveValue::NotSet));
    assert!(matches!(rename_result::<u8, ()>(UpdateOutcome::Updated(3)), Ok(Some(3))));
    assert!(matches!(rename_result::<u8, ()>(UpdateOutcome::RecordNotFound), Ok(None)));
    assert!(matches!(rename_result::<u8, &str>(UpdateOutcome::Failed("db")), Err("db")));
    let row = new_folder_active_model(folders::NewFolder {
        public_id: folders::PublicId::parse("nf").unwrap(),
        encrypted_name: folders::FolderName(encrypted_blobs::Model::new(vault(3), vec![])),
        expired_at: None,
    });
    assert!(matches!(row.expired_at, ActiveValue::SetValue(None)));
}

#[test]
fn folder_deletion_outcomes() {
    assert!(matches!(folder_deleted::<(), ()>(Ok(Some(folder(1, None)))), Ok(true)));
    assert!(matches!(folder_deleted::<(), ()>(Ok(None)), Ok(false)));
    assert!(matches!(folder_deleted::<&str, ()>(Err("db")), Err(FoldersError::Repository("db"))));
    assert_eq!(RenameFolderError::Empty.message(), "folder name is empty");
    assert_eq!(RenameFolderError::TooLong.message(), "folder name is too long");
}

#[test]
fn download_steps() {
    assert!(matches!(folder_step::<(), ()>(Ok(Some(folder(8, None)))), Ok(Some(folders::Id(8)))));
    assert!(matches!(folder_step::<(), &str>(Err("x")), Err(DownloadError::Folders("x"))));
    assert!(matches!(file_step::<(), ()>(Ok(Some(file(1, 8, 33)))), Ok(Some(files::StoragePath(33)))));
    assert!(matches!(file_step::<&str, ()>(Err("y")), Err(DownloadError::Files("y"))));
    assert!(matches!(contents_step::<u8, (), ()>(Ok(Some(4))), Ok(Some(4))));
    assert!(matches!(contents_step::<u8, (), ()>(Ok(None)), Ok(None)));
}

fn part(n: i32, tag: &str) -> RawCompletedPart {
    RawCompletedPart { part_number: n, e_tag: tag.to_string() }
}

#[test]
fn parts_complete_in_number_order() {
    let parts = vec![part(3, "c"), part(1, "a"), part(2, "b1"), part(2, "b2")];
    let sorted = sort_parts_by_number(&parts);
    let seen: Vec<(i32, &str)> = sorted.iter().map(|p| (p.part_number, p.e_tag.as_str())).collect();
    assert_eq!(seen, vec![(1, "a"), (2, "b1"), (2, "b2"), (3, "c")]);
    let reported = RawCompletedPart::from_reported(None, None);
    assert_eq!((reported.part_number, reported.e_tag.as_str()), (0, ""));
}

#[test]
fn multipart_handle_numbers_parts() {
    assert_eq!(upload_id_or_missing(None).err(), Some(UploadError::MissingUploadId));
    assert!(S3MultipartUploadHandle::create((), "b".to_string(), files::StoragePath(1), None).is_err());
    let mut h = S3MultipartUploadHandle::create((), "bucket".to_string(), files::StoragePath(1), Some("up".to_string())).unwrap();
    let t1 = h.begin_part().unwrap();
    let t2 = h.begin_part().unwrap();
    assert_eq!((t1.part_number, t2.part_number), (1, 2));
    assert_eq!((t1.bucket.as_str(), t1.upload_id.as_str()), ("bucket", "up"));
    h.finish_part(2, Some("e2".to_string())).unwrap();
    h.finish_part(1, None).unwrap();
    let c = prepare_completion(h).unwrap();
    let seen: Vec<(i32, &str)> = c.parts.iter().map(|p| (p.part_number, p.e_tag.as_str())).collect();
    assert_eq!(seen, vec![(1, ""), (2, "e2")]);
    assert_eq!(c.raw.next_part_number, 3);
    let dropped: S3MultipartUploadHandle<()> = S3MultipartUploadHandle { inner: None };
    assert_eq!(prepare_completion(dropped).err(), Some(UploadError::MultipartHandlerDropped));
    let raw = RawS3MultipartFileUpload::start("b".to_string(), files::StoragePath(2), "u".to_string());
    assert_eq!(raw.next_part_number, 1);
}

#[test]
fn object_keys_hold_the_uuid() {
    assert_eq!(object_key(files::StoragePath(0)), "files/00000000-0000-0000-0000-000000000000");
    assert_eq!(
        object_key(files::StoragePath(0x0123456789abcdef0fedcba987654321)),
        "files/01234567-89ab-cdef-0fed-cba987654321"
    );
}

#[test]
fn bulk_deletes_go_in_batches_of_150() {
    let ids: Vec<files::StoragePath> = (0..301u128).map(files::StoragePath).collect();
    let batches = delete_batches(&ids);
    assert_eq!(batches.iter().map(|b| b.len()).collect::<Vec<_>>(), vec![150, 150, 1]);
    assert_eq!(batches[2][0], files::StoragePath(300));
    assert!(delete_batches(&vec![]).is_empty());
    assert_eq!(delete_batches(&(0..150u128).map(files::StoragePath).collect()).len(), 1);
}

#[test]
fn generated_ids() {
    let g = RandomIdGeneratorService;
    let f = g.next_public_folder_id();
    assert_eq!(f.as_str().len(), 8);
    assert!(f.as_str().chars().all(|c| c.is_ascii_alphanumeric()));
    let p = g.next_public_file_id();
    assert_eq!(p.as_str().len(), 16);
    assert!(p.as_str().chars().all(|c| c.is_ascii_alphanumeric()));
    let path = g.next_file_storage_path();
    assert_eq!((path.0 >> 76) & 15, 7);
    assert_ne!(g.next_public_file_id().as_str(), p.as_str());
}

#[test]
fn token_service_needs_base64_secret() {
    let expires = SignedDuration { secs: 3600, nanos: 0 };
    assert!(JwtTokenService::try_new(expires, "not base64!").is_none());
    let service = JwtTokenService::try_new(expires, "c2VjcmV0LXNlY3JldC1zZWNyZXQ=").unwrap();
    assert_eq!(service.expires, expires);
    let folder = folders::PublicId::parse("fold").unwrap();
    let claims = match service.claims_for(&folder, UtcTimestamp::new(100, 900_000_000), UtcTimestamp::new(101, 0)) {
        Ok(c) => c,
        Err(_) => panic!("claims expected"),
    };
    assert_eq!(claims.expiration, 3700);
    assert_eq!(claims.issued_at, 101);
    assert_eq!(claims.folder, "fold");
    assert!(token_grants_folder(Some(claims.folder.clone()), &folder));
    assert!(!token_grants_folder(Some("other".to_string()), &folder));
    assert!(!token_grants_folder(None, &folder));
}

#[test]
fn token_expiry_out_of_range() {
    let service = JwtTokenService::try_new(SignedDuration { secs: 10, nanos: 0 }, "c2VjcmV0").unwrap();
    let folder = folders::PublicId::parse("fold").unwrap();
    let late = UtcTimestamp::new(MAX_UTC_SECS, 0);
    assert!(matches!(service.claims_for(&folder, late, late), Err(JwtServiceError::InvalidExpires)));
    let t = checked_add_signed(UtcTimestamp::new(5, 500_000_000), SignedDuration { secs: -6, nanos: 600_000_000 }).unwrap();
    assert_eq!((t.secs, t.nanos), (0, 100_000_000));
    assert!(checked_add_signed(late, SignedDuration { secs: 1, nanos: 0 }).is_none());
}

#[test]
fn dropped_uploads_are_aborted() {
    let storage = S3FilesStorage::new("client", "bucket".to_string());
    let mut h = storage.start_upload("client", files::StoragePath(5), Some("up".to_string())).unwrap();
    let (client, request) = abort_on_drop(&mut h).unwrap();
    assert_eq!(client, "client");
    assert_eq!(request.bucket, "bucket");
    assert_eq!(request.upload_id, "up");
    assert_eq!(request.key, "files/00000000-0000-0000-0000-000000000005");
    assert!(h.inner.is_none());
    assert!(abort_on_drop(&mut h).is_none());
    assert!(storage.start_upload("client", files::StoragePath(5), None).is_err());
    assert!(matches!(get_file_result::<u8, ()>(GetObjectOutcome::Found(1)), Ok(Some(1))));
    assert!(matches!(get_file_result::<u8, ()>(GetObjectOutcome::NoSuchKey), Ok(None)));
    assert!(matches!(get_file_result::<u8, &str>(GetObjectOutcome::Failed("net")), Err("net")));
}

type Event = UploadEvent<&'static str, &'static str, &'static str>;

#[test]
fn upload_steps() {
    let state = upload_start();
    assert!(matches!(state, UploadState::Starting));
    let (state, action) = upload_step(state, Event::Started(Ok(())));
    assert!(matches!(state, UploadState::Reading(ref p) if p.total_bytes_received == 0));
    assert!(matches!(action, UploadAction::ReadChunk));
    let (state, action) = upload_step(state, Event::Chunk(Some(Ok(vec![1, 2, 3]))));
    assert!(matches!(state, UploadState::Storing(ref p) if p.total_bytes_received == 3));
    assert!(matches!(action, UploadAction::StorePart(ref b) if *b == vec![1, 2, 3]));
    let (state, action) = upload_step(state, Event::PartStored(Ok(())));
    assert!(matches!(action, UploadAction::ReadChunk));
    let (state, _) = upload_step(state, Event::Chunk(Some(Ok(vec![4; 5]))));
    let (state, _) = upload_step(state, Event::PartStored(Ok(())));
    let (state, action) = upload_step(state, Event::Chunk(None));
    assert!(matches!(state, UploadState::Completing(ref p) if p.total_bytes_received == 8));
    assert!(matches!(action, UploadAction::Complete));
    let (state, action) = upload_step(state, Event::Completed(Ok(files::StoragePath(42))));
    assert!(matches!(state, UploadState::Recording));
    assert!(matches!(action, UploadAction::Record { storage_path: files::StoragePath(42), ref progress } if progress.total_bytes_received == 8));
    let (state, action) = upload_step(state, Event::Recorded(Ok(file(9, 1, 42))));
    assert!(matches!(state, UploadState::Done));
    assert!(matches!(action, UploadAction::Finish(Ok(ref f)) if f.id == files::Id(9)));
}

#[test]
fn upload_failures() {
    let (state, action) = upload_step(upload_start(), Event::Started(Err("s3 down")));
    assert!(matches!(state, UploadState::Done));
    assert!(matches!(action, UploadAction::Finish(Err(ServiceError::Internal(FilesError::Storage("s3 down"))))));
    let (reading, _) = upload_step(upload_start(), Event::Started(Ok(())));
    let (state, action) = upload_step(reading, Event::Chunk(Some(Err("client gone"))));
    assert!(matches!(state, UploadState::Done));
    assert!(matches!(action, UploadAction::Finish(Err(ServiceError::Business("client gone")))));
    let (reading, _) = upload_step(upload_start(), Event::Started(Ok(())));
    let (storing, _) = upload_step(reading, Event::Chunk(Some(Ok(vec![1]))));
    let (_, action) = upload_step(storing, Event::PartStored(Err("part lost")));
    assert!(matches!(action, UploadAction::Finish(Err(ServiceError::Internal(FilesError::Storage("part lost"))))));
    let (reading, _) = upload_step(upload_start(), Event::Started(Ok(())));
    let (completing, _) = upload_step(reading, Event::Chunk(None));
    let (recording, _) = upload_step(completing, Event::Completed(Ok(files::StoragePath(1))));
    let (_, action) = upload_step(recording, Event::Recorded(Err("db down")));
    assert!(matches!(action, UploadAction::Finish(Err(ServiceError::Internal(FilesError::Repository("db down"))))));
}

#[test]
fn completing_uploads() {
    let storage = S3FilesStorage::new("client", "bucket".to_string());
    let h = storage.start_upload("client", files::StoragePath(7), Some("up".to_string())).unwrap();
    let (done, rebuilt) = completion_outcome::<_, &str>(prepare_completion(h).unwrap(), Ok(()));
    assert_eq!(done, Ok(files::StoragePath(7)));
    assert!(rebuilt.is_none());
    let h = storage.start_upload("client", files::StoragePath(8), Some("up2".to_string())).unwrap();
    let (failed, rebuilt) = completion_outcome(prepare_completion(h).unwrap(), Err("refused"));
    assert_eq!(failed, Err("refused"));
    let mut rebuilt = rebuilt.unwrap();
    let (_, abort) = abort_on_drop(&mut rebuilt).unwrap();
    assert_eq!((abort.upload_id.as_str(), abort.key.as_str()), ("up2", "files/00000000-0000-0000-0000-000000000008"));
    let delete = storage.delete_request(files::StoragePath(0x10));
    assert_eq!((delete.bucket.as_str(), delete.key.as_str()), ("bucket", "files/00000000-0000-0000-0000-000000000010"));
}

#[test]
fn completed_files_and_deletions() {
    let upload = UploadFileData { folder_id: folders::Id(3), data_meta: vault(1), meta: encrypted_blobs::Model::new(vault(2), vec![1]), file_size: 42 };
    let record = completed_file_record(files::PublicId::parse("pub").unwrap(), upload, files::StoragePath(9));
    assert_eq!((record.folder_id, record.storage_path, record.file_size), (folders::Id(3), files::StoragePath(9), 42));
    assert_eq!(storage_to_delete(&Some(file(1, 2, 77))), Some(files::StoragePath(77)));
    assert_eq!(storage_to_delete(&None), None);
}

#[test]
fn interleaved_parts_and_a_consumed_handle() {
    let storage = S3FilesStorage::new((), "bucket".to_string());
    let mut h = storage.start_upload((), files::StoragePath(3), Some("up".to_string())).unwrap();
    let first = h.begin_part().unwrap().part_number;
    let second = h.begin_part().unwrap().part_number;
    let third = h.begin_part().unwrap().part_number;
    assert_eq!((first, second, third), (1, 2, 3));
    h.finish_part(third, Some("c".to_string())).unwrap();
    h.finish_part(first, Some("a".to_string())).unwrap();
    let recorded: Vec<i32> = h.inner.as_ref().unwrap().inner.completed_parts.iter().map(|p| p.part_number).collect();
    assert_eq!(recorded, vec![3, 1]);
    assert_eq!(h.inner.as_ref().unwrap().inner.next_part_number, 4);
    assert!(abort_on_drop(&mut h).is_some());
    assert_eq!(h.begin_part().err(), Some(UploadError::MultipartHandlerDropped));
    assert_eq!(h.finish_part(second, None).err(), Some(UploadError::MultipartHandlerDropped));
    assert!(h.inner.is_none());
}
