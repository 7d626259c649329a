use wallet_storage::config::{PostgresConfig, PostgresCredentials, PostgresStorageType};
use wallet_storage::error::WalletStorageError;
use wallet_storage::memory::backend::MemoryBackend;
use wallet_storage::options::{Document, RecordOptions};
use wallet_storage::record::{EncryptedValue, Tag, TagName};
use wallet_storage::storage::PostgresStorage;

fn _wallet_id() -> &'static str {
    "walle1"
}

fn _flag(document: &serde_json::Value, key: &str, default: bool) -> Option<bool> {
    match document.get(key) {
        None => Some(default),
        Some(value) => value.as_bool(),
    }
}

fn _options(text: &str) -> Document<RecordOptions> {
    let document: serde_json::Value = match serde_json::from_str(text) {
        Ok(document) => document,
        Err(_) => return Document::Malformed,
    };
    if !document.is_object() {
        return Document::Malformed;
    }
    match (
        _flag(&document, "retrieveType", false),
        _flag(&document, "retrieveValue", true),
        _flag(&document, "retrieveTags", false),
    ) {
        (Some(retrieve_type), Some(retrieve_value), Some(retrieve_tags)) => {
            Document::Parsed(RecordOptions::new(retrieve_type, retrieve_value, retrieve_tags))
        }
        _ => Document::Malformed,
    }
}

fn _text(document: &serde_json::Value, key: &str) -> Option<String> {
    document.get(key).and_then(|value| value.as_str()).map(|text| text.to_string())
}

fn _wallet_config() -> Document<PostgresConfig> {
    let text = r#"{"url": "postgres-db:5432"}"#;
    let document: serde_json::Value = serde_json::from_str(text).unwrap();
    Document::Parsed(PostgresConfig { url: _text(&document, "url").unwrap() })
}

fn _wallet_credentials() -> Document<PostgresCredentials> {
    let text = r#"{"account": "postgres", "password": "mysecretpassword",
        "admin_account": "postgres", "admin_password": "mysecretpassword"}"#;
    let document: serde_json::Value = serde_json::from_str(text).unwrap();
    Document::Parsed(PostgresCredentials {
        account: _text(&document, "account").unwrap(),
        password: _text(&document, "password").unwrap(),
        admin_account: _text(&document, "admin_account"),
        admin_password: _text(&document, "admin_password"),
    })
}

fn _cleanup() -> MemoryBackend {
    let mut backend = MemoryBackend::new();
    let storage_type = PostgresStorageType::new();
    let _ret = backend.delete_storage(
        &storage_type,
        _wallet_id(),
        _wallet_config(),
        _wallet_credentials(),
    );
    backend
}

fn _storage(backend: &mut MemoryBackend) -> PostgresStorage {
    let storage_type = PostgresStorageType::new();
    backend
        .create_storage(
            &storage_type,
            _wallet_id(),
            _wallet_config(),
            _wallet_credentials(),
            &_metadata(),
        )
        .unwrap();
    backend
        .open_storage(&storage_type, _wallet_id(), _wallet_config(), _wallet_credentials())
        .unwrap()
}

fn _metadata() -> Vec<u8> {
    return vec![
        1, 2, 3, 4, 5, 6, 7, 8, 1, 2, 3, 4, 5, 6, 7, 8, 1, 2, 3, 4, 5, 6, 7, 8, 1, 2, 3, 4, 5, 6,
        7, 8, 1, 2, 3, 4, 5, 6, 7, 8, 1, 2, 3, 4, 5, 6, 7, 8, 1, 2, 3, 4, 5, 6, 7, 8, 1, 2, 3, 4,
        5, 6, 7, 8,
    ];
}

fn _type(i: u8) -> Vec<u8> {
    vec![i, 1 + i, 2 + i]
}

fn _type1() -> Vec<u8> {
    _type(1)
}

fn _type2() -> Vec<u8> {
    _type(2)
}

fn _id(i: u8) -> Vec<u8> {
    vec![3 + i, 4 + i, 5 + i]
}

fn _id1() -> Vec<u8> {
    _id(1)
}

fn _id2() -> Vec<u8> {
    _id(2)
}

fn _value(i: u8) -> EncryptedValue {
    EncryptedValue { data: vec![6 + i, 7 + i, 8 + i], key: vec![9 + i, 10 + i, 11 + i] }
}

fn _value1() -> EncryptedValue {
    _value(1)
}

fn _value2() -> EncryptedValue {
    _value(2)
}

fn _tags() -> Vec<Tag> {
    let mut tags: Vec<Tag> = Vec::new();
    tags.push(Tag::Encrypted(vec![1, 5, 8], vec![3, 5, 6]));
    tags.push(Tag::PlainText(vec![1, 5, 8, 1], "Plain value 1".to_string()));
    tags.push(Tag::Encrypted(vec![2, 5, 8], vec![3, 5, 7]));
    tags.push(Tag::PlainText(vec![2, 5, 8, 1], "Plain value 2".to_string()));
    tags
}

fn _new_tags() -> Vec<Tag> {
    vec![
        Tag::Encrypted(vec![1, 1, 1], vec![2, 2, 2]),
        Tag::PlainText(vec![1, 1, 1], String::from("tag_value_3")),
    ]
}

fn _sort(mut v: Vec<Tag>) -> Vec<Tag> {
    v.sort();
    v
}

const WITH_TAGS: &str = r##"{"retrieveType": false, "retrieveValue": true, "retrieveTags": true}"##;

#[test]
fn postgres_storage_type_init_works() {
    let mut backend = _cleanup();

    let storage_type = PostgresStorageType::new();
    backend.init_storage(&storage_type, _wallet_config(), _wallet_credentials()).unwrap();
}

#[test]
fn postgres_storage_type_create_works() {
    let mut backend = _cleanup();

    let storage_type = PostgresStorageType::new();
    backend
        .create_storage(
            &storage_type,
            _wallet_id(),
            _wallet_config(),
            _wallet_credentials(),
            &_metadata(),
        )
        .unwrap();
}

#[test]
fn postgres_storage_type_create_works_for_twice() {
    let mut backend = _cleanup();

    let storage_type = PostgresStorageType::new();
    backend
        .create_storage(
            &storage_type,
            _wallet_id(),
            _wallet_config(),
            _wallet_credentials(),
            &_metadata(),
        )
        .unwrap();

    let res = backend.create_storage(
        &storage_type,
        _wallet_id(),
        _wallet_config(),
        _wallet_credentials(),
        &_metadata(),
    );
    assert!(matches!(res, Err(WalletStorageError::AlreadyExists)));
}

#[test]
fn postgres_storage_get_storage_metadata_works() {
    let mut backend = _cleanup();

    let storage = _storage(&mut backend);
    let metadata = backend.get_storage_metadata(&storage).unwrap();

    assert_eq!(metadata, _metadata());
}

#[test]
fn postgres_storage_type_delete_works() {
    let mut backend = _cleanup();

    let storage_type = PostgresStorageType::new();
    backend
        .create_storage(
            &storage_type,
            _wallet_id(),
            _wallet_config(),
            _wallet_credentials(),
            &_metadata(),
        )
        .unwrap();

    backend
        .delete_storage(&storage_type, _wallet_id(), _wallet_config(), _wallet_credentials())
        .unwrap();
}

#[test]
fn postgres_storage_type_delete_works_for_non_existing() {
    let mut backend = _cleanup();

    let storage_type = PostgresStorageType::new();
    backend
        .create_storage(
            &storage_type,
            _wallet_id(),
            _wallet_config(),
            _wallet_credentials(),
            &_metadata(),
        )
        .unwrap();

    let res =
        backend.delete_storage(&storage_type, "unknown", _wallet_config(), _wallet_credentials());
    assert!(matches!(res, Err(WalletStorageError::NotFound)));

    backend
        .delete_storage(&storage_type, _wallet_id(), _wallet_config(), _wallet_credentials())
        .unwrap();
}

#[test]
fn postgres_storage_type_open_works() {
    let mut backend = _cleanup();
    _storage(&mut backend);
}

#[test]
fn postgres_storage_type_open_works_for_not_created() {
    let mut backend = _cleanup();

    let storage_type = PostgresStorageType::new();

    let res =
        backend.open_storage(&storage_type, "unknown", _wallet_config(), _wallet_credentials());
    assert!(matches!(res, Err(WalletStorageError::NotFound)));
}

#[test]
fn postgres_storage_add_works_for_is_802() {
    let mut backend = _cleanup();

    let storage = _storage(&mut backend);

    backend.add(&storage, &_type1(), &_id1(), &_value1(), &_tags()).unwrap();

    let res = backend.add(&storage, &_type1(), &_id1(), &_value1(), &_tags());
    assert!(matches!(res, Err(WalletStorageError::ItemAlreadyExists)));

    let res = backend.add(&storage, &_type1(), &_id1(), &_value1(), &_tags());
    assert!(matches!(res, Err(WalletStorageError::ItemAlreadyExists)));
}

#[test]
fn postgres_storage_set_get_works() {
    let mut backend = _cleanup();

    let storage = _storage(&mut backend);

    backend.add(&storage, &_type1(), &_id1(), &_value1(), &_tags()).unwrap();
    let record = backend.get(&storage, &_type1(), &_id1(), _options(WITH_TAGS)).unwrap();

    assert_eq!(record.value.unwrap(), _value1());
    assert_eq!(_sort(record.tags.unwrap()), _sort(_tags()));
}

#[test]
fn postgres_storage_set_get_works_for_twice() {
    let mut backend = _cleanup();

    let storage = _storage(&mut backend);
    backend.add(&storage, &_type1(), &_id1(), &_value1(), &_tags()).unwrap();

    let res = backend.add(&storage, &_type1(), &_id1(), &_value2(), &_tags());
    assert!(matches!(res, Err(WalletStorageError::ItemAlreadyExists)));
}

#[test]
fn postgres_storage_set_get_works_for_reopen() {
    let mut backend = _cleanup();

    {
        let storage = _storage(&mut backend);
        backend.add(&storage, &_type1(), &_id1(), &_value1(), &_tags()).unwrap();
    }

    let storage_type = PostgresStorageType::new();
    let storage = backend
        .open_storage(&storage_type, _wallet_id(), _wallet_config(), _wallet_credentials())
        .unwrap();
    let record = backend.get(&storage, &_type1(), &_id1(), _options(WITH_TAGS)).unwrap();

    assert_eq!(record.value.unwrap(), _value1());
    assert_eq!(_sort(record.tags.unwrap()), _sort(_tags()));
}

#[test]
fn postgres_storage_get_works_for_wrong_key() {
    let mut backend = _cleanup();

    let storage = _storage(&mut backend);
    backend.add(&storage, &_type1(), &_id1(), &_value1(), &_tags()).unwrap();

    let res = backend.get(&storage, &_type1(), &_id2(), _options(WITH_TAGS));
    assert!(matches!(res, Err(WalletStorageError::ItemNotFound)))
}

#[test]
fn postgres_storage_delete_works() {
    let mut backend = _cleanup();

    let storage = _storage(&mut backend);
    backend.add(&storage, &_type1(), &_id1(), &_value1(), &_tags()).unwrap();

    let record = backend.get(&storage, &_type1(), &_id1(), _options(WITH_TAGS)).unwrap();
    assert_eq!(record.value.unwrap(), _value1());
    assert_eq!(_sort(record.tags.unwrap()), _sort(_tags()));

    backend.delete(&storage, &_type1(), &_id1()).unwrap();
    let res = backend.get(&storage, &_type1(), &_id1(), _options(WITH_TAGS));
    assert!(matches!(res, Err(WalletStorageError::ItemNotFound)));
}

#[test]
fn postgres_storage_delete_works_for_non_existing() {
    let mut backend = _cleanup();

    let storage = _storage(&mut backend);
    backend.add(&storage, &_type1(), &_id1(), &_value1(), &_tags()).unwrap();

    let res = backend.delete(&storage, &_type1(), &_id2());
    assert!(matches!(res, Err(WalletStorageError::ItemNotFound)));
}

#[test]
fn postgres_storage_create_and_find_multiple_works() {
    let mut backend = _cleanup();

    let storage = _storage(&mut backend);

    backend.add(&storage, &_type1(), &_id1(), &_value1(), &_tags()).unwrap();
    let record1 = backend.get(&storage, &_type1(), &_id1(), _options(WITH_TAGS)).unwrap();
    assert_eq!(record1.value.unwrap(), _value1());
    assert_eq!(_sort(record1.tags.unwrap()), _sort(_tags()));

    backend.add(&storage, &_type2(), &_id2(), &_value2(), &_tags()).unwrap();
    let record2 = backend.get(&storage, &_type2(), &_id2(), _options(WITH_TAGS)).unwrap();
    assert_eq!(record2.value.unwrap(), _value2());
    assert_eq!(_sort(record2.tags.unwrap()), _sort(_tags()));
}

#[test]
fn postgres_storage_get_all_works() {
    let mut backend = _cleanup();

    let storage = _storage(&mut backend);
    backend.add(&storage, &_type1(), &_id1(), &_value1(), &_tags()).unwrap();
    backend.add(&storage, &_type2(), &_id2(), &_value2(), &_tags()).unwrap();

    let mut storage_iterator = backend.get_all(&storage).unwrap();

    let record = storage_iterator.next(&mut backend).unwrap().unwrap();
    assert_eq!(record.type_.unwrap(), _type1());
    assert_eq!(record.value.unwrap(), _value1());
    assert_eq!(_sort(record.tags.unwrap()), _sort(_tags()));

    let record = storage_iterator.next(&mut backend).unwrap().unwrap();
    assert_eq!(record.type_.unwrap(), _type2());
    assert_eq!(record.value.unwrap(), _value2());
    assert_eq!(_sort(record.tags.unwrap()), _sort(_tags()));

    let record = storage_iterator.next(&mut backend).unwrap();
    assert!(record.is_none());
}

#[test]
fn postgres_storage_get_all_works_for_empty() {
    let mut backend = _cleanup();

    let storage = _storage(&mut backend);
    let mut storage_iterator = backend.get_all(&storage).unwrap();

    let record = storage_iterator.next(&mut backend).unwrap();
    assert!(record.is_none());
}

#[test]
fn postgres_storage_update_works() {
    let mut backend = _cleanup();

    let storage = _storage(&mut backend);

    backend.add(&storage, &_type1(), &_id1(), &_value1(), &_tags()).unwrap();
    let record = backend.get(&storage, &_type1(), &_id1(), _options(WITH_TAGS)).unwrap();
    assert_eq!(record.value.unwrap(), _value1());

    backend.update(&storage, &_type1(), &_id1(), &_value2()).unwrap();
    let record = backend.get(&storage, &_type1(), &_id1(), _options(WITH_TAGS)).unwrap();
    assert_eq!(record.value.unwrap(), _value2());
}

#[test]
fn postgres_storage_update_works_for_non_existing_id() {
    let mut backend = _cleanup();

    let storage = _storage(&mut backend);

    backend.add(&storage, &_type1(), &_id1(), &_value1(), &_tags()).unwrap();
    let record = backend.get(&storage, &_type1(), &_id1(), _options(WITH_TAGS)).unwrap();
    assert_eq!(record.value.unwrap(), _value1());

    let res = backend.update(&storage, &_type1(), &_id2(), &_value2());
    assert!(matches!(res, Err(WalletStorageError::ItemNotFound)))
}

#[test]
fn postgres_storage_update_works_for_non_existing_type() {
    let mut backend = _cleanup();

    let storage = _storage(&mut backend);

    backend.add(&storage, &_type1(), &_id1(), &_value1(), &_tags()).unwrap();
    let record = backend.get(&storage, &_type1(), &_id1(), _options(WITH_TAGS)).unwrap();
    assert_eq!(record.value.unwrap(), _value1());

    let res = backend.update(&storage, &_type2(), &_id1(), &_value2());
    assert!(matches!(res, Err(WalletStorageError::ItemNotFound)))
}

#[test]
fn postgres_storage_add_tags_works() {
    let mut backend = _cleanup();

    let storage = _storage(&mut backend);
    backend.add(&storage, &_type1(), &_id1(), &_value1(), &_tags()).unwrap();

    backend.add_tags(&storage, &_type1(), &_id1(), &_new_tags()).unwrap();

    let record = backend.get(&storage, &_type1(), &_id1(), _options(WITH_TAGS)).unwrap();
    assert_eq!(record.value.unwrap(), _value1());

    let expected_tags = {
        let mut tags = _tags();
        tags.extend(_new_tags());
        _sort(tags)
    };

    assert_eq!(_sort(record.tags.unwrap()), expected_tags);
}

#[test]
fn postgres_storage_add_tags_works_for_non_existing_id() {
    let mut backend = _cleanup();

    let storage = _storage(&mut backend);
    backend.add(&storage, &_type1(), &_id1(), &_value1(), &_tags()).unwrap();

    let res = backend.add_tags(&storage, &_type1(), &_id2(), &_new_tags());
    assert!(matches!(res, Err(WalletStorageError::ItemNotFound)))
}

#[test]
fn postgres_storage_add_tags_works_for_non_existing_type() {
    let mut backend = _cleanup();

    let storage = _storage(&mut backend);
    backend.add(&storage, &_type1(), &_id1(), &_value1(), &_tags()).unwrap();

    let res = backend.add_tags(&storage, &_type2(), &_id1(), &_new_tags());
    assert!(matches!(res, Err(WalletStorageError::ItemNotFound)))
}

#[test]
fn postgres_storage_add_tags_works_for_already_existing() {
    let mut backend = _cleanup();

    let storage = _storage(&mut backend);
    backend.add(&storage, &_type1(), &_id1(), &_value1(), &_tags()).unwrap();

    let tags_with_existing = {
        let mut tags = _tags();
        tags.extend(_new_tags());
        tags
    };

    backend.add_tags(&storage, &_type1(), &_id1(), &tags_with_existing).unwrap();

    let record = backend.get(&storage, &_type1(), &_id1(), _options(WITH_TAGS)).unwrap();
    assert_eq!(record.value.unwrap(), _value1());

    let expected_tags = {
        let mut tags = _tags();
        tags.extend(_new_tags());
        _sort(tags)
    };

    assert_eq!(_sort(record.tags.unwrap()), expected_tags);
}

#[test]
fn postgres_storage_update_tags_works() {
    let mut backend = _cleanup();

    let storage = _storage(&mut backend);
    backend.add(&storage, &_type1(), &_id1(), &_value1(), &_tags()).unwrap();

    backend.update_tags(&storage, &_type1(), &_id1(), &_new_tags()).unwrap();

    let record = backend.get(&storage, &_type1(), &_id1(), _options(WITH_TAGS)).unwrap();
    assert_eq!(record.value.unwrap(), _value1());
    assert_eq!(_sort(record.tags.unwrap()), _sort(_new_tags()));
}

#[test]
fn postgres_storage_update_tags_works_for_non_existing_id() {
    let mut backend = _cleanup();

    let storage = _storage(&mut backend);
    backend.add(&storage, &_type1(), &_id1(), &_value1(), &_tags()).unwrap();

    let res = backend.update_tags(&storage, &_type1(), &_id2(), &_new_tags());
    assert!(matches!(res, Err(WalletStorageError::ItemNotFound)));
}

#[test]
fn postgres_storage_update_tags_works_for_non_existing_type() {
    let mut backend = _cleanup();

    let storage = _storage(&mut backend);
    backend.add(&storage, &_type1(), &_id1(), &_value1(), &_tags()).unwrap();

    let res = backend.update_tags(&storage, &_type1(), &_id2(), &_new_tags());
    assert!(matches!(res, Err(WalletStorageError::ItemNotFound)));
}

#[test]
fn postgres_storage_update_tags_works_for_already_existing() {
    let mut backend = _cleanup();

    let storage = _storage(&mut backend);
    backend.add(&storage, &_type1(), &_id1(), &_value1(), &_tags()).unwrap();

    let tags_with_existing = {
        let mut tags = _tags();
        tags.extend(_new_tags());
        tags
    };

    backend.update_tags(&storage, &_type1(), &_id1(), &tags_with_existing).unwrap();

    let record = backend.get(&storage, &_type1(), &_id1(), _options(WITH_TAGS)).unwrap();
    assert_eq!(record.value.unwrap(), _value1());

    let expected_tags = {
        let mut tags = _tags();
        tags.extend(_new_tags());
        _sort(tags)
    };

    assert_eq!(_sort(record.tags.unwrap()), expected_tags);
}

#[test]
fn postgres_storage_delete_tags_works() {
    let mut backend = _cleanup();

    let storage = _storage(&mut backend);

    let tag_name1 = vec![0, 0, 0];
    let tag_name2 = vec![1, 1, 1];
    let tag_name3 = vec![2, 2, 2];
    let tag1 = Tag::Encrypted(tag_name1.clone(), vec![0, 0, 0]);
    let tag2 = Tag::PlainText(tag_name2.clone(), "tag_value_2".to_string());
    let tag3 = Tag::Encrypted(tag_name3.clone(), vec![2, 2, 2]);
    let tags = vec![tag1.clone(), tag2.clone(), tag3.clone()];

    backend.add(&storage, &_type1(), &_id1(), &_value1(), &tags).unwrap();

    let tag_names =
        vec![TagName::OfEncrypted(tag_name1.clone()), TagName::OfPlain(tag_name2.clone())];
    backend.delete_tags(&storage, &_type1(), &_id1(), &tag_names).unwrap();

    let record = backend.get(&storage, &_type1(), &_id1(), _options(WITH_TAGS)).unwrap();
    assert_eq!(record.tags.unwrap(), vec![tag3]);
}

#[test]
fn postgres_storage_delete_tags_works_for_non_existing_type() {
    let mut backend = _cleanup();

    let storage = _storage(&mut backend);

    let tag_name1 = vec![0, 0, 0];
    let tag_name2 = vec![1, 1, 1];
    let tag_name3 = vec![2, 2, 2];
    let tag1 = Tag::Encrypted(tag_name1.clone(), vec![0, 0, 0]);
    let tag2 = Tag::PlainText(tag_name2.clone(), "tag_value_2".to_string());
    let tag3 = Tag::Encrypted(tag_name3.clone(), vec![2, 2, 2]);
    let tags = vec![tag1.clone(), tag2.clone(), tag3.clone()];

    backend.add(&storage, &_type1(), &_id1(), &_value1(), &tags).unwrap();

    let tag_names =
        vec![TagName::OfEncrypted(tag_name1.clone()), TagName::OfPlain(tag_name2.clone())];
    let res = backend.delete_tags(&storage, &_type2(), &_id1(), &tag_names);
    assert!(matches!(res, Err(WalletStorageError::ItemNotFound)));
}

#[test]
fn postgres_storage_delete_tags_works_for_non_existing_id() {
    let mut backend = _cleanup();

    let storage = _storage(&mut backend);

    let tag_name1 = vec![0, 0, 0];
    let tag_name2 = vec![1, 1, 1];
    let tag_name3 = vec![2, 2, 2];
    let tag1 = Tag::Encrypted(tag_name1.clone(), vec![0, 0, 0]);
    let tag2 = Tag::PlainText(tag_name2.clone(), "tag_value_2".to_string());
    let tag3 = Tag::Encrypted(tag_name3.clone(), vec![2, 2, 2]);
    let tags = vec![tag1.clone(), tag2.clone(), tag3.clone()];

    backend.add(&storage, &_type1(), &_id1(), &_value1(), &tags).unwrap();

    let tag_names =
        vec![TagName::OfEncrypted(tag_name1.clone()), TagName::OfPlain(tag_name2.clone())];
    let res = backend.delete_tags(&storage, &_type1(), &_id2(), &tag_names);
    assert!(matches!(res, Err(WalletStorageError::ItemNotFound)));
}
