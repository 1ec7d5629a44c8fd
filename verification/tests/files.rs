use pcosew::errors::ApiError;
use pcosew::identity::AuthUser;
use pcosew::model::UploadPart;
use pcosew::store::MemStore;
use pcosew::validate::UpdateVisibilityDto;

fn ident(id: &str) -> AuthUser {
    AuthUser {
        user_id: id.to_string(),
        email: format!("{}@test.com", id),
        role: "cliente".to_string(),
    }
}

fn part(name: Option<&str>, mime: Option<&str>, data: &[u8]) -> UploadPart {
    UploadPart {
        filename: name.map(|s| s.to_string()),
        mime: mime.map(|s| s.to_string()),
        data: data.to_vec(),
    }
}

#[test]
fn upload_then_download_is_byte_identical() {
    let mut store = MemStore::new();
    let a = ident("aaaaaaaaaaaaaaaaaaaaaaaa");
    let bytes = b"hello, stored bytes \x00\x01\x02";
    let out = store
        .upload(&a, Some(part(Some("notes.txt"), Some("text/plain"), bytes)), 1000)
        .expect("upload");
    assert_eq!(out.original_name, "notes.txt");
    assert_eq!(out.size, bytes.len());
    assert_eq!(out.visibility, "private");
    assert_eq!(out.owner_id, a.user_id);

    let d = store.download(&a, &out.id).expect("download");
    assert_eq!(d.content, bytes.to_vec());
    assert_eq!(d.mime, "text/plain");
    assert_eq!(d.disposition, "attachment; filename=\"notes.txt\"");
}

#[test]
fn upload_sanitizes_the_client_filename() {
    let mut store = MemStore::new();
    let a = ident("aaaaaaaaaaaaaaaaaaaaaaaa");
    let out = store
        .upload(&a, Some(part(Some("../../etc/passwd"), None, b"x")), 1000)
        .expect("upload");
    assert!(!out.original_name.contains('/'));
    assert_eq!(out.original_name, "....etcpasswd");
    assert_eq!(out.mime, "application/octet-stream");
    assert_eq!(store.files[0].stored_name, format!("{}_{}", out.id, out.original_name));
}

#[test]
fn upload_without_filename_uses_the_default_name() {
    let mut store = MemStore::new();
    let a = ident("aaaaaaaaaaaaaaaaaaaaaaaa");
    let out = store.upload(&a, Some(part(None, None, b"x")), 1000).expect("upload");
    assert_eq!(out.original_name, "file.bin");
}

#[test]
fn upload_without_a_part_is_rejected() {
    let mut store = MemStore::new();
    let a = ident("aaaaaaaaaaaaaaaaaaaaaaaa");
    match store.upload(&a, None, 1000) {
        Err(ApiError::BadRequest(m)) => assert_eq!(m, "No file uploaded"),
        other => panic!("expected 400, got ok={}", other.is_ok()),
    }
    assert_eq!(store.files.len(), 0);
    assert_eq!(store.blobs.len(), 0);
}

#[test]
fn files_of_one_owner_are_invisible_to_another() {
    let mut store = MemStore::new();
    let a = ident("aaaaaaaaaaaaaaaaaaaaaaaa");
    let b = ident("bbbbbbbbbbbbbbbbbbbbbbbb");
    let out = store
        .upload(&a, Some(part(Some("secret.txt"), None, b"top secret")), 1000)
        .expect("upload");

    assert_eq!(store.list(&b).len(), 0);
    assert_eq!(store.list(&a).len(), 1);

    match store.download(&b, &out.id) {
        Err(ApiError::NotFound(m)) => assert_eq!(m, "File not found"),
        other => panic!("expected 404, got ok={}", other.is_ok()),
    }
    match store.set_visibility(&b, &out.id, "public", 2000) {
        Err(ApiError::NotFound(_)) => {},
        other => panic!("expected 404, got ok={}", other.is_ok()),
    }
    match store.delete(&b, &out.id) {
        Err(ApiError::NotFound(_)) => {},
        other => panic!("expected 404, got ok={}", other.is_ok()),
    }
    // Still there for its owner.
    assert!(store.download(&a, &out.id).is_ok());
}

#[test]
fn invalid_visibility_is_rejected_and_mutates_nothing() {
    let mut store = MemStore::new();
    let a = ident("aaaaaaaaaaaaaaaaaaaaaaaa");
    let out = store.upload(&a, Some(part(Some("f.txt"), None, b"x")), 1000).expect("upload");
    let dto = UpdateVisibilityDto { visibility: "hidden".to_string() };
    match store.set_visibility(&a, &out.id, &dto.visibility, 2000) {
        Err(ApiError::BadRequest(m)) => assert_eq!(m, "visibility must be public|private"),
        other => panic!("expected 400, got ok={}", other.is_ok()),
    }
    assert_eq!(store.files[0].visibility, "private");
    assert_eq!(store.files[0].updated_at, 1000);

    let v = store.set_visibility(&a, &out.id, "  PUBLIC ", 2000).expect("update");
    assert_eq!(v, "public");
    assert_eq!(store.files[0].visibility, "public");
    assert_eq!(store.files[0].updated_at, 2000);
    assert_eq!(store.files[0].created_at, 1000);
}

#[test]
fn malformed_file_ids_are_bad_requests() {
    let mut store = MemStore::new();
    let a = ident("aaaaaaaaaaaaaaaaaaaaaaaa");
    for bad in ["nope", "zzzzzzzzzzzzzzzzzzzzzzzz", "0123456789abcdef0123456"] {
        match store.download(&a, bad) {
            Err(ApiError::BadRequest(m)) => assert_eq!(m, "Invalid file id"),
            other => panic!("expected 400, got ok={}", other.is_ok()),
        }
    }
}

#[test]
fn delete_twice_first_succeeds_second_is_not_found() {
    let mut store = MemStore::new();
    let a = ident("aaaaaaaaaaaaaaaaaaaaaaaa");
    let out = store.upload(&a, Some(part(Some("f.txt"), None, b"x")), 1000).expect("upload");
    store.delete(&a, &out.id).expect("first delete");
    assert_eq!(store.files.len(), 0);
    assert_eq!(store.blobs.len(), 0);
    match store.delete(&a, &out.id) {
        Err(ApiError::NotFound(m)) => assert_eq!(m, "File not found"),
        other => panic!("expected 404, got ok={}", other.is_ok()),
    }
}

#[test]
fn download_reports_missing_content() {
    let mut store = MemStore::new();
    let a = ident("aaaaaaaaaaaaaaaaaaaaaaaa");
    let out = store.upload(&a, Some(part(Some("f.txt"), None, b"x")), 1000).expect("upload");
    store.blobs.clear();
    match store.download(&a, &out.id) {
        Err(ApiError::NotFound(m)) => assert_eq!(m, "File missing on disk"),
        other => panic!("expected 404, got ok={}", other.is_ok()),
    }
}

#[test]
fn list_keeps_storage_order_and_hides_stored_names() {
    let mut store = MemStore::new();
    let a = ident("aaaaaaaaaaaaaaaaaaaaaaaa");
    store.upload(&a, Some(part(Some("one.txt"), None, b"1")), 1000).expect("upload one");
    store.upload(&a, Some(part(Some("two.txt"), None, b"22")), 1001).expect("upload two");
    let listed = store.list(&a);
    assert_eq!(listed.len(), 2);
    assert_eq!(listed[0].original_name, "one.txt");
    assert_eq!(listed[1].original_name, "two.txt");
    assert_eq!(listed[0].size, 1);
    assert_eq!(listed[1].size, 2);
}
