use backend::grpc::leaked::Leaked;
use backend::cache::{finish_load, next_step, InflightRegistry, LoadStep};
use backend::decimal::{push_i64, push_u64};
use backend::files::repository::cache as files_cache;
use backend::folders::repository::cache as folders_cache;
use backend::models::encrypted_vault::{EncryptionAlgo, IV, Tag};
use backend::models::time::{Duration, UtcTimestamp};
use backend::models::{files, folders};

const GOOD_IV: &str = "AAECAwQFBgcICQoL";
const GOOD_TAG: &str = "AAECAwQFBgcICQoLDA0ODxAR";

#[test]
fn decimal_text_of_numbers() {
    let mut s = String::from("n=");
    push_u64(&mut s, 0);
    assert_eq!(s, "n=0");
    let mut s = String::new();
    push_u64(&mut s, u64::MAX);
    assert_eq!(s, u64::MAX.to_string());
    let mut s = String::new();
    push_i64(&mut s, i64::MIN);
    assert_eq!(s, i64::MIN.to_string());
    let mut s = String::new();
    push_i64(&mut s, -5);
    assert_eq!(s, "-5");
    let mut s = String::new();
    push_i64(&mut s, 1234567890);
    assert_eq!(s, "1234567890");
}

#[test]
fn file_cache_keys() {
    assert_eq!(files_cache::key_by_id(files::Id(-5)), "cache:files:file:-5");
    let public_id = files::PublicId::parse("abc").unwrap();
    assert_eq!(files_cache::key_by_public_id(&public_id), "cache:files:file:pub:abc");
    assert_eq!(files_cache::folder_files_key(folders::Id(42)), "cache:files:folder:42");
    assert_eq!(files_cache::folder_files_count_key(folders::Id(42)), "cache:files:folder:count:42");
}

#[test]
fn folder_cache_keys() {
    assert_eq!(folders_cache::key_by_id(folders::Id(7)), "cache:folders:f:7");
    let public_id = folders::PublicId::parse("xyz").unwrap();
    assert_eq!(folders_cache::key_by_public_id(&public_id), "cache:folders:pub:xyz");
}

fn sample_vault(id: i32) -> backend::models::encrypted_vault::Model {
    backend::models::encrypted_vault::Model {
        id: backend::models::encrypted_vault::Id(id),
        iv: IV::parse(GOOD_IV).unwrap(),
        tag: Tag::parse(GOOD_TAG).unwrap(),
        ver: backend::models::encrypted_vault::Version(1),
        algo: EncryptionAlgo::Aes256Gcm,
    }
}

fn sample_file(id: i32, public_id: &str, folder: i64) -> files::Model {
    files::Model {
        id: files::Id(id),
        public_id: files::PublicId::parse(public_id).unwrap(),
        folder_id: folders::Id(folder),
        data_meta: sample_vault(1),
        meta: backend::models::encrypted_blobs::Model::new(sample_vault(2), vec![1, 2, 3]),
        storage_path: files::StoragePath(9),
        file_size: 10,
        created_at: UtcTimestamp::new(0, 0),
    }
}

#[test]
fn file_write_clears_its_keys() {
    let f = sample_file(3, "pubfile", 11);
    let keys = files_cache::keys_cleared_by_file_write(&f);
    assert_eq!(
        keys,
        vec![
            "cache:files:file:3".to_string(),
            "cache:files:folder:11".to_string(),
            "cache:files:file:pub:pubfile".to_string(),
            "cache:files:folder:count:11".to_string(),
        ]
    );
}

#[test]
fn folder_purge_clears_keys_of_each_file() {
    let deleted = vec![sample_file(1, "a", 5), sample_file(2, "b", 5)];
    let keys = files_cache::keys_cleared_by_folder_purge(&deleted, folders::Id(5));
    assert_eq!(keys.len(), 8);
    assert_eq!(keys[0], "cache:files:file:1");
    assert_eq!(keys[2], "cache:files:file:pub:a");
    assert_eq!(keys[4], "cache:files:file:2");
    assert_eq!(keys[6], "cache:files:file:pub:b");
    assert_eq!(keys[7], "cache:files:folder:count:5");
    assert!(files_cache::keys_cleared_by_folder_purge(&vec![], folders::Id(5)).is_empty());
}

#[test]
fn public_ids_are_short_ascii() {
    assert_eq!(folders::PublicId::parse("abcdefgh").unwrap().as_str(), "abcdefgh");
    assert!(folders::PublicId::parse("abcdefghi").is_none());
    assert!(folders::PublicId::parse("é").is_none());
    assert!(folders::PublicId::parse("a\0b").is_none());
    assert_eq!(files::PublicId::parse("0123456789abcdef").unwrap().as_str(), "0123456789abcdef");
    assert!(files::PublicId::parse("0123456789abcdefg").is_none());
    let a = folders::PublicId::parse("same").unwrap();
    let b = folders::PublicId::parse("same").unwrap();
    let c = folders::PublicId::parse("other").unwrap();
    assert!(a.same_as(&b));
    assert!(!a.same_as(&c));
}

#[test]
fn iv_and_tag_need_exact_base64() {
    assert_eq!(IV::parse(GOOD_IV).unwrap().as_str(), GOOD_IV);
    assert!(IV::parse("AAECAwQFBgcICQo").is_none());
    assert!(IV::parse("!!!!!!!!!!!!!!!!").is_none());
    assert_eq!(Tag::parse(GOOD_TAG).unwrap().as_str(), GOOD_TAG);
    assert!(Tag::parse(GOOD_IV).is_none());
    assert!(Tag::parse("????????????????????????").is_none());
}

#[test]
fn algorithm_names() {
    assert_eq!(EncryptionAlgo::Aes256Gcm.name(), "Aes256Gcm");
    assert!(matches!(EncryptionAlgo::from_name("Aes256Gcm"), Some(EncryptionAlgo::Aes256Gcm)));
    assert!(EncryptionAlgo::from_name("aes256gcm").is_none());
}

#[test]
fn timestamps_and_durations() {
    let d = Duration::new(1, 2_500_000_000);
    assert_eq!((d.secs, d.nanos), (3, 500_000_000));
    let t = UtcTimestamp::new(10, 700_000_000);
    let later = t.plus(d);
    assert_eq!((later.secs, later.nanos), (14, 200_000_000));
    assert!(later.is_after(&t));
    assert!(!t.is_after(&later));
    assert!(!t.is_after(&t));
    let neg = UtcTimestamp::new(-3, 0);
    assert_eq!(neg.plus(Duration::new(0, 1)).secs, -3);
}

#[test]
fn one_leader_per_key() {
    let mut registry = InflightRegistry::new();
    let first: LoadStep<u32> = next_step(&mut registry, "k", None);
    assert!(matches!(first, LoadStep::Load));
    let second: LoadStep<u32> = next_step(&mut registry, "k", None);
    assert!(matches!(second, LoadStep::Wait));
    let other: LoadStep<u32> = next_step(&mut registry, "j", None);
    assert!(matches!(other, LoadStep::Load));
    let hit = next_step(&mut registry, "k", Some(7u32));
    assert!(matches!(hit, LoadStep::Return(7)));
    let loaded: Result<u32, ()> = finish_load(&mut registry, "k", Ok(5));
    assert_eq!(loaded, Ok(5));
    assert!(!registry.is_inflight("k"));
    assert!(registry.is_inflight("j"));
    let again: LoadStep<u32> = next_step(&mut registry, "k", None);
    assert!(matches!(again, LoadStep::Load));
}

#[test]
fn leaked_values_live_on() {
    let r: &'static String = String::from("service").leaked();
    assert_eq!(r, "service");
    let n: &'static u32 = 5u32.leaked();
    assert_eq!(*n, 5);
}
