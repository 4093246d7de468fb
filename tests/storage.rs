use std::collections::HashMap;

use projectkit::{
    AuthService, File, FileMetadata, StorageError, StorageService, TransactionalStorageService,
    UserStorageStats,
};

fn service() -> TransactionalStorageService {
    TransactionalStorageService::new(StorageService::new("/srv/blobs".to_string()))
}

fn record(id: &str, owner: i64, size: i64, created_at: i64) -> File {
    File {
        id: Some(id.to_string()),
        user_id: owner,
        original_name: format!("{}.txt", id),
        stored_name: format!("{}.txt", id),
        size,
        mime_type: None,
        storage_path: "/srv/blobs".to_string(),
        created_at,
    }
}

#[test]
fn stored_name_keeps_the_extension() {
    let storage = StorageService::new("/srv/blobs".to_string());
    let meta = storage.store(b"Hello, World!", "test.txt", Some("text/plain".to_string()));
    assert_eq!(meta.original_name, "test.txt");
    assert_eq!(meta.size, 13);
    assert_eq!(meta.id.len(), 36);
    assert_eq!(meta.stored_name, format!("{}.txt", meta.id));
    assert_eq!(meta.mime_type, Some("text/plain".to_string()));
    assert_eq!(storage.base_path(), "/srv/blobs");
}

#[test]
fn name_without_extension_is_stored_under_the_bare_id() {
    let storage = StorageService::new("b".to_string());
    let meta = storage.store(b"", "README", None);
    assert_eq!(meta.stored_name, meta.id);
    assert_eq!(meta.size, 0);
    let dotfile = storage.store(b"x", ".bashrc", None);
    assert_eq!(dotfile.stored_name, dotfile.id);
    let nested = storage.store(b"x", "dir.d/archive.tar.gz", None);
    assert_eq!(nested.stored_name, format!("{}.gz", nested.id));
}

#[test]
fn concurrent_stores_get_distinct_names() {
    let storage = StorageService::new("b".to_string());
    let a = storage.store(b"one", "same.bin", None);
    let b = storage.store(b"two", "same.bin", None);
    assert_ne!(a.id, b.id);
    assert_ne!(a.stored_name, b.stored_name);
}

#[test]
fn candidate_names_try_the_common_extensions() {
    let names = StorageService::candidate_names("abc");
    assert_eq!(names, vec!["abc", "abc", "abc.jpg", "abc.png", "abc.pdf", "abc.txt", "abc.json"]);
}

#[test]
fn failed_blob_write_inserts_nothing_and_removes_the_blob() {
    let svc = service();
    let meta = svc.storage().store(b"partial", "a.txt", None);
    let (r, remove) = svc.store_with_metadata(meta.clone(), Err("disk full".to_string()), 1);
    assert!(matches!(r, Err(StorageError::IoError(m)) if m == "disk full"));
    assert_eq!(remove, Some(meta.stored_name));
}

#[test]
fn failed_insert_removes_the_written_blob() {
    let svc = service();
    let meta = svc.storage().store(b"payload", "a.txt", None);
    let rec = svc.store_with_metadata(meta.clone(), Ok(()), 5).0.unwrap();
    assert_eq!(rec.created_at, meta.created_at);
    assert_eq!(rec.id, Some(meta.id.clone()));
    assert_eq!(rec.user_id, 5);
    assert_eq!(rec.size, 7);
    assert_eq!(rec.storage_path, "/srv/blobs");
    let (result, remove) = TransactionalStorageService::complete_store(rec, Err("constraint".to_string()));
    assert!(matches!(result, Err(StorageError::StorageError(m)) if m == "constraint"));
    assert_eq!(remove, Some(meta.stored_name));
}

#[test]
fn stored_bytes_come_back_unchanged() {
    let svc = service();
    let mut disk: HashMap<String, Vec<u8>> = HashMap::new();
    for payload in [Vec::new(), b"Hello, World!".to_vec(), vec![0u8, 255, 7]] {
        let meta: FileMetadata = svc.storage().store(&payload, "p.bin", None);
        disk.insert(meta.stored_name.clone(), payload.clone());
        let rec = svc.store_with_metadata(meta, Ok(()), 3).0.unwrap();
        let (result, remove) = TransactionalStorageService::complete_store(rec, Ok(()));
        assert!(remove.is_none());
        let file = result.unwrap();
        let id = file.id.clone().unwrap();
        let name = svc.retrieve_with_permission(&id, 3, Ok(Some(file))).unwrap();
        assert_eq!(disk[&name], payload);
    }
}

#[test]
fn non_owner_is_forbidden() {
    let svc = service();
    let f = record("f1", 1, 10, 0);
    assert!(matches!(svc.retrieve_with_permission("f1", 2, Ok(Some(f.clone()))), Err(StorageError::Forbidden(_))));
    assert!(matches!(svc.delete_with_metadata("f1", 2, Ok(Some(f.clone()))), Err(StorageError::Forbidden(_))));
    assert_eq!(svc.file_exists_for_user("f1", 2, Ok(Some(f.clone()))), Ok(false));
    assert_eq!(svc.file_exists_for_user("f1", 1, Ok(Some(f))), Ok(true));
}

#[test]
fn unknown_id_is_not_found() {
    let svc = service();
    assert!(matches!(svc.retrieve_with_permission("nope", 1, Ok(None)), Err(StorageError::FileNotFound(_))));
    let other = record("f2", 1, 1, 0);
    assert!(matches!(svc.retrieve_with_permission("f1", 1, Ok(Some(other))), Err(StorageError::FileNotFound(_))));
    assert!(matches!(svc.retrieve_with_permission("f1", 1, Err("down".to_string())), Err(StorageError::StorageError(_))));
}

#[test]
fn delete_then_retrieve_is_not_found() {
    let svc = service();
    let f = record("f1", 1, 10, 0);
    let rec = svc.delete_with_metadata("f1", 1, Ok(Some(f))).unwrap();
    let (done, blob) = TransactionalStorageService::complete_delete(rec, Ok(1));
    assert_eq!(done, Ok(()));
    assert_eq!(blob, Some("f1.txt".to_string()));
    assert!(matches!(svc.retrieve_with_permission("f1", 1, Ok(None)), Err(StorageError::FileNotFound(_))));
}

#[test]
fn failed_metadata_delete_keeps_the_blob() {
    let f = record("f1", 1, 10, 0);
    let (done, blob) = TransactionalStorageService::complete_delete(f, Err("locked".to_string()));
    assert!(matches!(done, Err(StorageError::StorageError(_))));
    assert_eq!(blob, None);
}

#[test]
fn listing_is_newest_first_and_per_owner() {
    let svc = service();
    let rows = vec![record("a", 1, 1, 10), record("b", 2, 1, 50), record("c", 1, 1, 30), record("d", 1, 1, 20)];
    let listed = svc.list_user_files(1, rows);
    let ids: Vec<String> = listed.iter().map(|f| f.id.clone().unwrap()).collect();
    assert_eq!(ids, vec!["c", "d", "a"]);
    assert!(svc.list_user_files(3, Vec::new()).is_empty());
}

#[test]
fn stats_count_and_sum_the_owners_files() {
    let svc = service();
    let rows = vec![record("a", 1, 100, 0), record("b", 2, 5, 0), record("c", 1, 24, 0)];
    assert_eq!(svc.get_user_storage_stats(1, &rows), Ok(UserStorageStats { file_count: 2, total_size: 124 }));
    assert_eq!(svc.get_user_storage_stats(9, &rows), Ok(UserStorageStats::default()));
    let huge = vec![record("a", 1, i64::MAX, 0), record("b", 1, 1, 0)];
    assert!(svc.get_user_storage_stats(1, &huge).is_err());
}

#[test]
fn end_to_end_signup_upload_download_delete() {
    let auth = AuthService::new("test_secret".to_string(), 3600);
    let created = auth.signup("a@x.com", "pw", Ok(None)).unwrap();
    let mut row = created.clone();
    row.id = Some(1);
    let user = AuthService::complete_signup(Ok(Some(row))).unwrap();
    let (token, _, _) = auth.login("a@x.com", "pw", Ok(Some(user.clone()))).unwrap();
    assert!(!token.is_empty());
    let (owner, claims) = auth.validate(&token).unwrap();
    let principal = auth.validate_with_claims(owner, &claims, Ok(Some(user))).unwrap();
    assert_eq!(principal.email, "a@x.com");

    let svc = service();
    let mut seed: u32 = 12345;
    let data: Vec<u8> = (0..1024)
        .map(|_| {
            seed = seed.wrapping_mul(1103515245).wrapping_add(12345);
            (seed >> 16) as u8
        })
        .collect();
    let mut disk: HashMap<String, Vec<u8>> = HashMap::new();
    let meta = svc.storage().store(&data, "report.pdf", Some("application/pdf".to_string()));
    disk.insert(meta.stored_name.clone(), data.clone());
    let rec = svc.store_with_metadata(meta, Ok(()), owner).0.unwrap();
    let (result, _) = TransactionalStorageService::complete_store(rec, Ok(()));
    let file = result.unwrap();
    let mut table = vec![file.clone()];

    let stats = svc.get_user_storage_stats(owner, &table).unwrap();
    assert_eq!(stats.file_count, 1);
    assert_eq!(stats.total_size, 1024);

    let id = file.id.clone().unwrap();
    let name = svc.retrieve_with_permission(&id, owner, Ok(Some(file.clone()))).unwrap();
    assert_eq!(disk[&name], data);
    assert!(matches!(svc.retrieve_with_permission(&id, owner + 1, Ok(Some(file.clone()))), Err(StorageError::Forbidden(_))));

    let doomed = svc.delete_with_metadata(&id, owner, Ok(Some(file))).unwrap();
    table.clear();
    let (done, blob) = TransactionalStorageService::complete_delete(doomed, Ok(1));
    assert_eq!(done, Ok(()));
    disk.remove(&blob.unwrap());
    assert!(disk.is_empty());
    assert!(table.is_empty());
    assert!(matches!(svc.retrieve_with_permission(&id, owner, Ok(None)), Err(StorageError::FileNotFound(_))));
}

fn find(disk: &HashMap<String, Vec<u8>>, file_id: &str) -> Option<String> {
    StorageService::candidate_names(file_id).into_iter().find(|n| disk.contains_key(n))
}

#[test]
fn test_store_and_retrieve() {
    let storage = StorageService::new("/srv/blobs".to_string());
    let mut disk: HashMap<String, Vec<u8>> = HashMap::new();

    let data = b"Hello, World!";
    let metadata = storage.store(data, "test.txt", Some("text/plain".to_string()));
    disk.insert(metadata.stored_name.clone(), data.to_vec());

    assert_eq!(metadata.original_name, "test.txt");
    assert_eq!(metadata.size, data.len() as u64);

    let retrieved = disk[&find(&disk, &metadata.id).unwrap()].clone();
    assert_eq!(retrieved, data);
}

#[test]
fn test_delete() {
    let storage = StorageService::new("/srv/blobs".to_string());
    let mut disk: HashMap<String, Vec<u8>> = HashMap::new();

    let data = b"Test data";
    let metadata = storage.store(data, "test.txt", None);
    disk.insert(metadata.stored_name.clone(), data.to_vec());

    assert!(find(&disk, &metadata.id).is_some());

    disk.remove(&find(&disk, &metadata.id).unwrap());

    assert!(find(&disk, &metadata.id).is_none());
}

#[test]
fn test_list_files() {
    let storage = StorageService::new("/srv/blobs".to_string());
    let mut disk: HashMap<String, Vec<u8>> = HashMap::new();

    for (data, name) in [(b"file1", "file1.txt"), (b"file2", "file2.txt")] {
        let metadata = storage.store(data, name, None);
        disk.insert(metadata.stored_name, data.to_vec());
    }

    assert_eq!(disk.len(), 2);
}
